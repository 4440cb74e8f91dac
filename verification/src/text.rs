//! Text as a sequence of characters: comparing, searching, replacing, decoding.

use vstd::prelude::*;
use vstd::utf8::{decode_utf8, valid_utf8};

verus! {

/// `String::push`: the given character is added at the end.
pub assume_specification[ String::push ](s: &mut String, c: char)
    ensures
        final(s)@ == old(s)@.push(c),
;

/// `needle` stands in `hay` at position `i`.
pub open spec fn occurs_at(hay: Seq<char>, needle: Seq<char>, i: int) -> bool {
    &&& 0 <= i <= hay.len() - needle.len()
    &&& hay.subrange(i, i + needle.len()) == needle
}

/// `needle` stands somewhere in `hay`; the empty text stands everywhere.
pub open spec fn has_text(hay: Seq<char>, needle: Seq<char>) -> bool {
    exists|i: int| occurs_at(hay, needle, i)
}

/// `s` with every `from` replaced by the text `to`.
pub open spec fn replaced(s: Seq<char>, from: char, to: Seq<char>) -> Seq<char>
    decreases s.len(),
{
    if s.len() == 0 {
        Seq::empty()
    } else {
        replaced(s.drop_last(), from, to) + (if s.last() == from {
            to
        } else {
            seq![s.last()]
        })
    }
}

/// The texts of a list of strings.
pub open spec fn texts(list: Seq<String>) -> Seq<Seq<char>> {
    list.map_values(|s: String| s@)
}

/// The text of an optional string.
pub open spec fn opt_text(s: Option<String>) -> Option<Seq<char>> {
    match s {
        Some(t) => Some(t@),
        None => None,
    }
}

/// The text of an optional string slice.
pub open spec fn opt_str(s: Option<&str>) -> Option<Seq<char>> {
    match s {
        Some(t) => Some(t@),
        None => None,
    }
}

/// What `String::from_utf8_lossy` makes of `bytes`.
pub uninterp spec fn lossy_text(bytes: Seq<u8>) -> Seq<char>;

/// `String::from_utf8_lossy`: the text that `bytes` encode. Valid UTF-8 is
/// decoded as it is; elsewhere replacement characters take the place of what
/// cannot be decoded.
#[verifier::external_body]
pub(crate) fn decode_lossy(bytes: &[u8]) -> (text: String)
    ensures
        text@ == lossy_text(bytes@),
        valid_utf8(bytes@) ==> text@ == decode_utf8(bytes@),
{
    String::from_utf8_lossy(bytes).into_owned()
}

/// The characters of `s`.
pub fn characters(s: &str) -> (chars: Vec<char>)
    ensures
        chars@ == s@,
{
    let mut chars: Vec<char> = Vec::new();
    for c in it: s.chars()
        invariant
            it.seq() == s@,
            chars@ == s@.take(it.index()),
    {
        chars.push(c);
    }
    chars
}

/// Whether two texts are equal.
pub fn same_text(a: &str, b: &str) -> (same: bool)
    ensures
        same == (a@ == b@),
{
    a.to_owned() == b.to_owned()
}

/// Whether `needle` stands in `hay` at position `at`.
fn stands_at(hay: &Vec<char>, needle: &Vec<char>, at: usize) -> (found: bool)
    requires
        at + needle@.len() <= hay@.len(),
    ensures
        found == occurs_at(hay@, needle@, at as int),
{
    let end: usize = hay.len();
    let mut k: usize = 0;
    while k < needle.len()
        invariant
            end == hay@.len(),
            k <= needle@.len(),
            at + needle@.len() <= hay@.len(),
            forall|j: int| 0 <= j < k ==> hay@[at + j] == needle@[j],
        decreases needle@.len() - k,
    {
        if hay[at + k] != needle[k] {
            proof {
                assert(hay@.subrange(at as int, at + needle@.len())[k as int] == hay@[at + k]);
            }
            return false;
        }
        k += 1;
    }
    proof {
        assert(hay@.subrange(at as int, at + needle@.len()) =~= needle@);
    }
    true
}

/// Whether `hay` holds `needle`.
pub fn contains_text(hay: &str, needle: &str) -> (found: bool)
    ensures
        found == has_text(hay@, needle@),
{
    let h: Vec<char> = characters(hay);
    let n: Vec<char> = characters(needle);
    if n.len() > h.len() {
        return false;
    }
    let last: usize = h.len() - n.len();
    let mut at: usize = 0;
    loop
        invariant
            h@ == hay@,
            n@ == needle@,
            last == h@.len() - n@.len(),
            at <= last,
            forall|i: int| 0 <= i < at ==> !occurs_at(hay@, needle@, i),
        decreases last - at,
    {
        if stands_at(&h, &n, at) {
            return true;
        }
        if at == last {
            return false;
        }
        at += 1;
    }
}

/// `s` with every `from` replaced by `to`.
pub fn replace_char(s: &str, from: char, to: &str) -> (out: String)
    ensures
        out@ == replaced(s@, from, to@),
{
    let mut out: String = String::new();
    for c in it: s.chars()
        invariant
            it.seq() == s@,
            out@ == replaced(s@.take(it.index()), from, to@),
    {
        proof {
            let before = s@.take(it.index());
            assert(s@.take(it.index() + 1).drop_last() =~= before);
            assert(s@.take(it.index() + 1).last() == c);
        }
        if c == from {
            out.append(to);
        } else {
            out.push(c);
        }
        proof {
            assert(out@ =~= replaced(s@.take(it.index() + 1), from, to@));
        }
    }
    proof {
        assert(s@.take(s@.len() as int) =~= s@);
    }
    out
}

/// A text stands in itself.
pub(crate) proof fn a_text_stands_in_itself(s: Seq<char>)
    ensures
        has_text(s, s),
{
    assert(s.subrange(0, s.len() as int) =~= s);
    assert(occurs_at(s, s, 0));
}

/// A text stands in another exactly where the other is that text between two others.
pub proof fn law_a_text_stands_between_two_others(hay: Seq<char>, needle: Seq<char>)
    ensures
        has_text(hay, needle) <==> exists|before: Seq<char>, after: Seq<char>| #[trigger]
            (before + needle + after) == hay,
{
    if has_text(hay, needle) {
        let i = choose|i: int| occurs_at(hay, needle, i);
        let before = hay.take(i);
        let after = hay.skip(i + needle.len());
        assert forall|k: int| 0 <= k < needle.len() implies hay[i + k] == needle[k] by {
            assert(hay.subrange(i, i + needle.len())[k] == hay[i + k]);
        }
        assert((before + needle + after) =~= hay);
    }
    if exists|before: Seq<char>, after: Seq<char>| #[trigger] (before + needle + after) == hay {
        let (before, after) = choose|before: Seq<char>, after: Seq<char>| #[trigger]
            (before + needle + after) == hay;
        let i = before.len() as int;
        assert(hay.subrange(i, i + needle.len()) =~= needle);
        assert(occurs_at(hay, needle, i));
    }
}

/// Searching and replacing, comparing and taking apart go by the characters of the
/// texts alone.
pub proof fn law_texts_are_their_characters(
    a: &str,
    b: &str,
    from: char,
    chars: Vec<char>,
    same: bool,
    found: bool,
    out: String,
)
    requires
        call_ensures(characters, (a,), chars),
        call_ensures(same_text, (a, b), same),
        call_ensures(contains_text, (a, b), found),
        call_ensures(replace_char, (a, from, b), out),
    ensures
        chars@ == a@,
        same <==> a@ == b@,
        found <==> has_text(a@, b@),
        out@ == replaced(a@, from, b@),
{
}

/// Replacing goes character by character: each of the replaced ones becomes the given
/// text, every other one stays, and two texts put together are replaced each by
/// itself.
pub proof fn law_replacing_goes_by_characters(
    a: Seq<char>,
    b: Seq<char>,
    c: char,
    from: char,
    to: Seq<char>,
)
    ensures
        replaced(Seq::empty(), from, to) == Seq::<char>::empty(),
        replaced(seq![from], from, to) == to,
        c != from ==> replaced(seq![c], from, to) == seq![c],
        replaced(a + b, from, to) == replaced(a, from, to) + replaced(b, from, to),
    decreases b.len(),
{
    reveal_with_fuel(replaced, 2);
    assert(seq![from].drop_last() =~= Seq::<char>::empty());
    assert(seq![c].drop_last() =~= Seq::<char>::empty());
    assert(replaced(seq![from], from, to) =~= to);
    assert(c != from ==> replaced(seq![c], from, to) =~= seq![c]);
    if b.len() == 0 {
        assert(a + b =~= a);
        assert(replaced(a + b, from, to) =~= replaced(a, from, to) + replaced(b, from, to));
    } else {
        law_replacing_goes_by_characters(a, b.drop_last(), c, from, to);
        assert((a + b).drop_last() =~= a + b.drop_last());
        assert((a + b).last() == b.last());
        assert(replaced(a + b, from, to) =~= replaced(a, from, to) + replaced(b, from, to));
    }
}

/// The texts of a list are those of its strings, one for each and in their order.
pub proof fn law_texts_are_those_of_the_strings(list: Seq<String>, one: Option<String>)
    ensures
        texts(list).len() == list.len(),
        forall|i: int| 0 <= i < list.len() ==> #[trigger] texts(list)[i] == list[i]@,
        one matches Some(s) ==> opt_text(one) == Some(s@),
        one is None ==> opt_text(one) is None,
{
}

/// The text of an optional slice is that of the slice.
pub proof fn law_the_text_of_a_slice(one: Option<&str>)
    ensures
        one matches Some(s) ==> opt_str(one) == Some(s@),
        one is None ==> opt_str(one) is None,
{
}

} // verus!
