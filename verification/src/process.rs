//! Telling from a process listing whether another instance is running.

use vstd::prelude::*;
use crate::clock::digits;
use crate::text::{characters, decode_lossy, lossy_text};

verus! {

/// The characters that Unicode gives the property `White_Space`.
pub open spec fn white_space(c: char) -> bool {
    let u = c as int;
    ||| 0x9 <= u <= 0xd
    ||| u == 0x20
    ||| u == 0x85
    ||| u == 0xa0
    ||| u == 0x1680
    ||| 0x2000 <= u <= 0x200a
    ||| u == 0x2028
    ||| u == 0x2029
    ||| u == 0x202f
    ||| u == 0x205f
    ||| u == 0x3000
}

/// `s` without the white space at its start.
pub open spec fn trimmed_start(s: Seq<char>) -> Seq<char>
    decreases s.len(),
{
    if s.len() > 0 && white_space(s[0]) {
        trimmed_start(s.skip(1))
    } else {
        s
    }
}

/// `s` without the white space at its end.
pub open spec fn trimmed_end(s: Seq<char>) -> Seq<char>
    decreases s.len(),
{
    if s.len() > 0 && white_space(s.last()) {
        trimmed_end(s.drop_last())
    } else {
        s
    }
}

/// `s` without the white space at either end.
pub open spec fn trimmed(s: Seq<char>) -> Seq<char> {
    trimmed_end(trimmed_start(s))
}

/// `c` is one of the ten decimal digits.
pub open spec fn is_digit(c: char) -> bool {
    '0' <= c && c <= '9'
}

/// The number that a row of decimal digits writes.
pub open spec fn decimal(s: Seq<char>) -> nat
    decreases s.len(),
{
    if s.len() == 0 {
        0
    } else {
        decimal(s.drop_last()) * 10 + (s.last() as nat - '0' as nat) as nat
    }
}

/// A number as it is read: its digits, behind an optional plus sign.
pub open spec fn number_digits(s: Seq<char>) -> Seq<char> {
    if s.len() > 0 && s[0] == '+' {
        s.skip(1)
    } else {
        s
    }
}

/// The process number that `s` writes: an optional plus sign and one or more
/// digits, of a value that fits.
pub open spec fn process_number(s: Seq<char>) -> Option<u32> {
    let digits = number_digits(s);
    if digits.len() > 0 && (forall|i: int| 0 <= i < digits.len() ==> is_digit(#[trigger] digits[i]))
        && decimal(digits) <= u32::MAX {
        Some(decimal(digits) as u32)
    } else {
        None
    }
}

/// The line of `s` from `from` up to `to`: it starts at the start of `s` or
/// behind a line feed, ends at the end of `s` or before one, and holds none.
pub open spec fn is_line(s: Seq<char>, from: int, to: int) -> bool {
    &&& 0 <= from <= to <= s.len()
    &&& from == 0 || s[from - 1] == '\n'
    &&& to == s.len() || s[to] == '\n'
    &&& forall|i: int| from <= i < to ==> s[i] != '\n'
}

/// Some line of `listing` holds, between white space, the number of a process
/// other than `own`.
pub open spec fn lists_other(listing: Seq<char>, own: u32) -> bool {
    exists|from: int, to: int| #[trigger]
        is_line(listing, from, to) && line_names_other(listing.subrange(from, to), own)
}

/// `line` holds, between white space, a process number other than `own`.
pub open spec fn line_names_other(line: Seq<char>, own: u32) -> bool {
    process_number(trimmed(line)) is Some && process_number(trimmed(line)) != Some(own)
}

/// Whether Unicode counts `c` as white space.
fn is_white_space(c: char) -> (yes: bool)
    ensures
        yes == white_space(c),
{
    let u: u32 = c as u32;
    (0x9 <= u && u <= 0xd) || u == 0x20 || u == 0x85 || u == 0xa0 || u == 0x1680 || (0x2000 <= u
        && u <= 0x200a) || u == 0x2028 || u == 0x2029 || u == 0x202f || u == 0x205f || u == 0x3000
}

/// The bounds of the characters from `from` up to `to` once the white space at
/// either end is left out.
fn trim_bounds(s: &Vec<char>, from: usize, to: usize) -> (bounds: (usize, usize))
    requires
        from <= to <= s@.len(),
    ensures
        from <= bounds.0 <= bounds.1 <= to,
        s@.subrange(bounds.0 as int, bounds.1 as int) == trimmed(
            s@.subrange(from as int, to as int),
        ),
{
    let ghost line = s@.subrange(from as int, to as int);
    let mut start: usize = from;
    while start < to && is_white_space(s[start])
        invariant
            from <= start <= to <= s@.len(),
            trimmed_start(line) == trimmed_start(s@.subrange(start as int, to as int)),
        decreases to - start,
    {
        proof {
            let rest = s@.subrange(start as int, to as int);
            assert(rest.skip(1) =~= s@.subrange(start + 1, to as int));
            assert(white_space(rest[0]));
        }
        start += 1;
    }
    let ghost kept = s@.subrange(start as int, to as int);
    proof {
        if start < to {
            assert(kept[0] == s@[start as int]);
        }
        assert(trimmed_start(line) == kept);
    }
    let mut end: usize = to;
    while start < end && is_white_space(s[end - 1])
        invariant
            from <= start <= end <= to <= s@.len(),
            trimmed_end(kept) == trimmed_end(s@.subrange(start as int, end as int)),
        decreases end - start,
    {
        proof {
            let rest = s@.subrange(start as int, end as int);
            assert(rest.drop_last() =~= s@.subrange(start as int, end - 1));
            assert(white_space(rest.last()));
        }
        end -= 1;
    }
    proof {
        let rest = s@.subrange(start as int, end as int);
        if start < end {
            assert(rest.last() == s@[end - 1]);
        }
    }
    (start, end)
}

/// A row of digits writes no smaller number than its own beginning.
proof fn decimal_grows(s: Seq<char>, k: int)
    requires
        0 <= k <= s.len(),
    ensures
        decimal(s.take(k)) <= decimal(s),
    decreases s.len() - k,
{
    if k < s.len() {
        decimal_grows(s, k + 1);
        assert(s.take(k + 1).drop_last() =~= s.take(k));
    } else {
        assert(s.take(k) =~= s);
    }
}

/// The process number that the characters from `from` up to `to` write.
fn read_process_number(s: &Vec<char>, from: usize, to: usize) -> (number: Option<u32>)
    requires
        from <= to <= s@.len(),
    ensures
        number == process_number(s@.subrange(from as int, to as int)),
{
    let ghost word = s@.subrange(from as int, to as int);
    let start: usize = if from < to && s[from] == '+' {
        from + 1
    } else {
        from
    };
    let ghost digits = s@.subrange(start as int, to as int);
    proof {
        if from < to {
            assert(word[0] == s@[from as int]);
            assert(word.skip(1) =~= s@.subrange(from + 1, to as int));
        }
        assert(number_digits(word) == digits);
    }
    if start == to {
        return None;
    }
    let mut value: u64 = 0;
    let mut k: usize = start;
    while k < to
        invariant
            start <= k <= to <= s@.len(),
            word == s@.subrange(from as int, to as int),
            digits == s@.subrange(start as int, to as int),
            digits == number_digits(word),
            forall|i: int| 0 <= i < k - start ==> is_digit(#[trigger] digits[i]),
            value == decimal(digits.take(k - start)),
            value <= u32::MAX,
        decreases to - k,
    {
        let c: char = s[k];
        proof {
            assert(digits[k - start] == c);
        }
        if !('0' <= c && c <= '9') {
            return None;
        }
        proof {
            assert(digits.take(k - start + 1).drop_last() =~= digits.take(k - start));
            assert(digits.take(k - start + 1).last() == c);
        }
        value = value * 10 + (c as u64 - '0' as u64);
        if value > 0xffff_ffff {
            proof {
                decimal_grows(digits, k - start + 1);
            }
            return None;
        }
        k += 1;
    }
    proof {
        assert(digits.take(to - start) =~= digits);
    }
    Some(value as u32)
}

/// Whether some line of `listing` names a process other than `own`. Lines that
/// hold anything but one process number are passed over.
pub fn names_other_process(listing: &str, own: u32) -> (other: bool)
    ensures
        other == lists_other(listing@, own),
{
    let s: Vec<char> = characters(listing);
    let len: usize = s.len();
    let mut from: usize = 0;
    let mut to: usize = 0;
    loop
        invariant
            s@ == listing@,
            len == s@.len(),
            from <= to <= len,
            from == 0 || s@[from - 1] == '\n',
            forall|i: int| from <= i < to ==> s@[i] != '\n',
            forall|a: int, b: int|
                is_line(s@, a, b) && a < from ==> !#[trigger] line_names_other(
                    s@.subrange(a, b),
                    own,
                ),
        decreases len - to, len - from,
    {
        if to < len && s[to] != '\n' {
            to += 1;
            continue ;
        }
        let (start, end) = trim_bounds(&s, from, to);
        proof {
            assert(is_line(s@, from as int, to as int));
        }
        match read_process_number(&s, start, end) {
            Some(number) => {
                if number != own {
                    return true;
                }
            },
            None => {},
        }
        proof {
            assert forall|a: int, b: int|
                is_line(s@, a, b) && a < to + 1 implies !#[trigger] line_names_other(
                s@.subrange(a, b),
                own,
            ) by {
                if a >= from {
                    if a > from {
                        assert(s@[a - 1] != '\n');
                    }
                    assert(a == from);
                    if b < to {
                        assert(s@[b] != '\n');
                    }
                    if b > to {
                        assert(s@[to as int] == '\n');
                    }
                    assert(b == to);
                }
            }
        }
        if to == len {
            return false;
        }
        to += 1;
        from = to;
    }
}

/// Whether another instance is running, from what the process listing printed
/// and this process's own number. `None` stands for a listing that could not be
/// had: then no other instance is taken to run.
pub fn is_already_running(output: Option<&[u8]>, own: u32) -> (running: bool)
    ensures
        running == (output matches Some(bytes) && lists_other(lossy_text(bytes@), own)),
        output matches Some(bytes) ==> vstd::utf8::valid_utf8(bytes@) ==> running == lists_other(
            vstd::utf8::decode_utf8(bytes@),
            own,
        ),
{
    match output {
        Some(bytes) => {
            let listing: String = decode_lossy(bytes);
            names_other_process(listing.as_str(), own)
        },
        None => false,
    }
}

/// Each line of a listing counts by itself: of two listings put one below the
/// other, another process is named where either names one.
pub proof fn law_lines_count_by_themselves(above: Seq<char>, below: Seq<char>, own: u32)
    ensures
        lists_other(above + seq!['\n'] + below, own) <==> lists_other(above, own) || lists_other(
            below,
            own,
        ),
{
    let both = above + seq!['\n'] + below;
    let n = above.len() as int;
    assert(both[n] == '\n');
    if lists_other(both, own) {
        let (from, to) = choose|from: int, to: int| #[trigger]
            is_line(both, from, to) && line_names_other(both.subrange(from, to), own);
        if to <= n {
            assert forall|i: int| 0 <= i < n implies above[i] == both[i] by {}
            assert(is_line(above, from, to));
            assert(above.subrange(from, to) =~= both.subrange(from, to));
        } else {
            assert(from > n);
            assert forall|i: int| 0 <= i < below.len() implies below[i] == both[i + n + 1] by {}
            assert(is_line(below, from - n - 1, to - n - 1));
            assert(below.subrange(from - n - 1, to - n - 1) =~= both.subrange(from, to));
        }
    }
    if lists_other(above, own) {
        let (from, to) = choose|from: int, to: int| #[trigger]
            is_line(above, from, to) && line_names_other(above.subrange(from, to), own);
        assert forall|i: int| 0 <= i < n implies above[i] == both[i] by {}
        assert(is_line(both, from, to));
        assert(above.subrange(from, to) =~= both.subrange(from, to));
    }
    if lists_other(below, own) {
        let (from, to) = choose|from: int, to: int| #[trigger]
            is_line(below, from, to) && line_names_other(below.subrange(from, to), own);
        assert forall|i: int| n < i < both.len() implies both[i] == below[i - n - 1] by {}
        assert(is_line(both, from + n + 1, to + n + 1));
        assert(below.subrange(from, to) =~= both.subrange(from + n + 1, to + n + 1));
    }
}

/// The digits of a number write that number, and have no zero in front but for zero's
/// own.
proof fn digits_write_the_number(n: nat)
    ensures
        digits(n).len() > 0,
        forall|i: int| 0 <= i < digits(n).len() ==> is_digit(#[trigger] digits(n)[i]),
        decimal(digits(n)) == n,
        n > 0 ==> digits(n)[0] != '0',
        n == 0 ==> digits(n) == seq!['0'],
    decreases n,
{
    if n < 10 {
        assert(digits(n).drop_last() =~= Seq::<char>::empty());
        assert(decimal(digits(n).drop_last()) == 0);
    } else {
        digits_write_the_number(n / 10);
        let front = digits(n / 10);
        assert(digits(n).drop_last() =~= front);
        assert forall|i: int| 0 <= i < digits(n).len() implies is_digit(
            #[trigger] digits(n)[i],
        ) by {
            if i < front.len() {
                assert(digits(n)[i] == front[i]);
            }
        }
    }
}

/// A number's digits are digits, write the number, and have no zero in front but for
/// zero's own.
pub proof fn law_a_number_is_written_in_digits(n: nat)
    ensures
        digits(n).len() > 0,
        forall|i: int| 0 <= i < digits(n).len() ==> is_digit(#[trigger] digits(n)[i]),
        decimal(digits(n)) == n,
        n > 0 ==> digits(n)[0] != '0',
        n == 0 ==> digits(n) == seq!['0'],
{
    digits_write_the_number(n);
}

/// A listing of one process names another exactly where that process is another,
/// with or without a line feed behind the number; an empty listing names none.
pub proof fn law_the_own_process_is_no_other(listed: u32, own: u32)
    ensures
        lists_other(digits(listed as nat), own) <==> listed != own,
        lists_other(digits(listed as nat).push('\n'), own) <==> listed != own,
        !lists_other(Seq::empty(), own),
{
    let word = digits(listed as nat);
    digits_write_the_number(listed as nat);
    assert(word[0] != '+' && !white_space(word[0]) && !white_space(word.last()));
    assert(trimmed(word) == word);
    assert(process_number(word) == Some(listed));
    assert(word.subrange(0, word.len() as int) =~= word);
    assert forall|i: int| 0 <= i < word.len() implies word[i] != '\n' by {
        assert(is_digit(word[i]));
    }
    assert(is_line(word, 0, word.len() as int));
    if lists_other(word, own) {
        let (from, to) = choose|from: int, to: int| #[trigger]
            is_line(word, from, to) && line_names_other(word.subrange(from, to), own);
        if from > 0 {
            assert(word[from - 1] != '\n');
        }
        if to < word.len() {
            assert(word[to] != '\n');
        }
    }
    let nothing = Seq::<char>::empty();
    if lists_other(nothing, own) {
        let (from, to) = choose|from: int, to: int| #[trigger]
            is_line(nothing, from, to) && line_names_other(nothing.subrange(from, to), own);
        assert(nothing.subrange(from, to) =~= nothing);
        assert(trimmed(nothing) == nothing);
    }
    law_lines_count_by_themselves(word, nothing, own);
    assert(word + seq!['\n'] + nothing =~= word.push('\n'));
}

/// The white space is that of Unicode: the ASCII controls from tab to carriage return,
/// the spaces, and the line and paragraph separators.
pub proof fn law_what_white_space_is(c: char)
    ensures
        white_space(c) <==> {
            ||| c == '\t'
            ||| c == '\n'
            ||| c == '\u{b}'
            ||| c == '\u{c}'
            ||| c == '\r'
            ||| c == ' '
            ||| c == '\u{85}'
            ||| c == '\u{a0}'
            ||| c == '\u{1680}'
            ||| '\u{2000}' <= c && c <= '\u{200a}'
            ||| c == '\u{2028}'
            ||| c == '\u{2029}'
            ||| c == '\u{202f}'
            ||| c == '\u{205f}'
            ||| c == '\u{3000}'
        },
{
}

/// A row of digits writes ten times what it writes without its last digit, and that
/// digit's value more.
pub proof fn law_each_digit_counts(front: Seq<char>, c: char)
    ensures
        decimal(Seq::empty()) == 0,
        is_digit(c) ==> decimal(front.push(c)) == decimal(front) * 10 + (c as int - '0' as int),
        is_digit(c) <==> 48 <= c as int <= 57,
{
    assert(front.push(c).drop_last() =~= front);
}

/// How many characters of white space `s` starts with.
proof fn leading_white_space(s: Seq<char>) -> (k: int)
    ensures
        0 <= k <= s.len(),
        forall|i: int| 0 <= i < k ==> white_space(#[trigger] s[i]),
        trimmed_start(s) == s.skip(k),
    decreases s.len(),
{
    if s.len() > 0 && white_space(s[0]) {
        let rest = s.skip(1);
        let k = leading_white_space(rest);
        assert forall|i: int| 0 <= i < k + 1 implies white_space(#[trigger] s[i]) by {
            if i > 0 {
                assert(rest[i - 1] == s[i]);
            }
        }
        assert(rest.skip(k) =~= s.skip(k + 1));
        k + 1
    } else {
        assert(s.skip(0) =~= s);
        0
    }
}

/// Where the white space at the end of `s` begins.
proof fn trailing_white_space(s: Seq<char>) -> (k: int)
    ensures
        0 <= k <= s.len(),
        forall|i: int| k <= i < s.len() ==> white_space(#[trigger] s[i]),
        trimmed_end(s) == s.take(k),
    decreases s.len(),
{
    if s.len() > 0 && white_space(s.last()) {
        let rest = s.drop_last();
        let k = trailing_white_space(rest);
        assert forall|i: int| k <= i < s.len() implies white_space(#[trigger] s[i]) by {
            if i < rest.len() {
                assert(rest[i] == s[i]);
            }
        }
        assert(rest.take(k) =~= s.take(k));
        k
    } else {
        assert(s.take(s.len() as int) =~= s);
        s.len() as int
    }
}

/// White space before a word is left out.
proof fn trims_before(space: Seq<char>, word: Seq<char>)
    requires
        forall|i: int| 0 <= i < space.len() ==> white_space(#[trigger] space[i]),
        word.len() > 0,
        !white_space(word[0]),
    ensures
        trimmed_start(space + word) == word,
    decreases space.len(),
{
    if space.len() == 0 {
        assert(space + word =~= word);
    } else {
        let rest = space.skip(1);
        assert forall|i: int| 0 <= i < rest.len() implies white_space(#[trigger] rest[i]) by {
            assert(rest[i] == space[i + 1]);
        }
        trims_before(rest, word);
        assert((space + word)[0] == space[0]);
        assert((space + word).skip(1) =~= rest + word);
    }
}

/// White space behind a word is left out.
proof fn trims_behind(word: Seq<char>, space: Seq<char>)
    requires
        forall|i: int| 0 <= i < space.len() ==> white_space(#[trigger] space[i]),
        word.len() > 0,
        !white_space(word.last()),
    ensures
        trimmed_end(word + space) == word,
    decreases space.len(),
{
    if space.len() == 0 {
        assert(word + space =~= word);
    } else {
        let rest = space.drop_last();
        assert forall|i: int| 0 <= i < rest.len() implies white_space(#[trigger] rest[i]) by {
            assert(rest[i] == space[i]);
        }
        trims_behind(word, rest);
        assert((word + space).last() == space[space.len() - 1]);
        assert((word + space).drop_last() =~= word + rest);
    }
}

/// A line names another process exactly where it is white space, an optional plus sign,
/// one or more digits and white space, and the digits write a number that fits and is
/// not the own one.
pub proof fn law_the_form_of_a_line_that_counts(line: Seq<char>, own: u32)
    ensures
        line_names_other(line, own) <==> exists|
            before: Seq<char>,
            sign: Seq<char>,
            number: Seq<char>,
            after: Seq<char>,
        |
            {
                &&& #[trigger] (before + sign + number + after) == line
                &&& forall|i: int| 0 <= i < before.len() ==> white_space(#[trigger] before[i])
                &&& forall|i: int| 0 <= i < after.len() ==> white_space(#[trigger] after[i])
                &&& sign == Seq::<char>::empty() || sign == seq!['+']
                &&& number.len() > 0
                &&& forall|i: int| 0 <= i < number.len() ==> is_digit(#[trigger] number[i])
                &&& decimal(number) <= u32::MAX
                &&& decimal(number) != own
            },
{
    if line_names_other(line, own) {
        let k = leading_white_space(line);
        let rest = line.skip(k);
        let m = trailing_white_space(rest);
        let word = rest.take(m);
        assert(trimmed(line) == word);
        let number = number_digits(word);
        let sign = if word.len() > 0 && word[0] == '+' {
            seq!['+']
        } else {
            Seq::<char>::empty()
        };
        let before = line.take(k);
        let after = rest.skip(m);
        assert(sign + number =~= word);
        assert(before + sign + number + after =~= line) by {
            assert(before + (sign + number) =~= before + sign + number);
        }
        assert forall|i: int| 0 <= i < after.len() implies white_space(#[trigger] after[i]) by {
            assert(after[i] == rest[i + m]);
        }
        assert forall|i: int| 0 <= i < before.len() implies white_space(#[trigger] before[i]) by {
            assert(before[i] == line[i]);
        }
    }
    if exists|before: Seq<char>, sign: Seq<char>, number: Seq<char>, after: Seq<char>|
        {
            &&& #[trigger] (before + sign + number + after) == line
            &&& forall|i: int| 0 <= i < before.len() ==> white_space(#[trigger] before[i])
            &&& forall|i: int| 0 <= i < after.len() ==> white_space(#[trigger] after[i])
            &&& sign == Seq::<char>::empty() || sign == seq!['+']
            &&& number.len() > 0
            &&& forall|i: int| 0 <= i < number.len() ==> is_digit(#[trigger] number[i])
            &&& decimal(number) <= u32::MAX
            &&& decimal(number) != own
        } {
        let (before, sign, number, after) = choose|
            before: Seq<char>,
            sign: Seq<char>,
            number: Seq<char>,
            after: Seq<char>,
        |
            {
                &&& #[trigger] (before + sign + number + after) == line
                &&& forall|i: int| 0 <= i < before.len() ==> white_space(#[trigger] before[i])
                &&& forall|i: int| 0 <= i < after.len() ==> white_space(#[trigger] after[i])
                &&& sign == Seq::<char>::empty() || sign == seq!['+']
                &&& number.len() > 0
                &&& forall|i: int| 0 <= i < number.len() ==> is_digit(#[trigger] number[i])
                &&& decimal(number) <= u32::MAX
                &&& decimal(number) != own
            };
        let word = sign + number;
        assert(is_digit(number[0]) && is_digit(number[number.len() - 1]));
        assert(word.last() == number[number.len() - 1]);
        if sign.len() == 0 {
            assert(word =~= number);
        } else {
            assert(word[0] == '+');
            assert(word.skip(1) =~= number);
        }
        assert(!white_space(word[0]) && !white_space(word.last()));
        assert((word + after)[0] == word[0]);
        assert(before + sign + number + after =~= before + (word + after));
        trims_before(before, word + after);
        trims_behind(word, after);
        assert(trimmed(line) == word);
        assert(number_digits(word) == number);
    }
}

/// A listing that could not be had names no other process; of one that could, it is
/// the text that decides.
pub proof fn law_the_listing_decides(
    listing: &str,
    output: Option<&[u8]>,
    own: u32,
    other: bool,
    running: bool,
)
    requires
        call_ensures(names_other_process, (listing, own), other),
        call_ensures(is_already_running, (output, own), running),
    ensures
        other == lists_other(listing@, own),
        output is None ==> !running,
        output matches Some(bytes) ==> (lossy_text(bytes@) == listing@ ==> running == other),
        output matches Some(bytes) ==> (vstd::utf8::valid_utf8(bytes@)
            && vstd::utf8::decode_utf8(bytes@) == listing@ ==> running == other),
{
}

/// A listing without a line feed is one line.
pub proof fn law_a_listing_of_one_line(line: Seq<char>, own: u32)
    requires
        !line.contains('\n'),
    ensures
        lists_other(line, own) <==> line_names_other(line, own),
{
    assert forall|i: int| 0 <= i < line.len() implies line[i] != '\n' by {
        assert(line.contains(line[i]));
    }
    assert(line.subrange(0, line.len() as int) =~= line);
    assert(is_line(line, 0, line.len() as int));
    if lists_other(line, own) {
        let (from, to) = choose|from: int, to: int| #[trigger]
            is_line(line, from, to) && line_names_other(line.subrange(from, to), own);
        if from > 0 {
            assert(line[from - 1] != '\n');
        }
        if to < line.len() {
            assert(line[to] != '\n');
        }
    }
}

} // verus!
