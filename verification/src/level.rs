//! How much is logged.

use vstd::prelude::*;
use vstd::utf8::is_ascii_chars;
use crate::text::same_text;

verus! {

/// The least grave kind of message that is still logged.
#[derive(Debug, Clone, Copy, PartialEq, Eq, Structural)]
pub enum LevelFilter {
    Error,
    Warn,
    Info,
    Debug,
    Trace,
}

/// The level that a name in small letters stands for; any other text stands for
/// `Info`.
pub open spec fn level_named(name: Seq<char>) -> LevelFilter {
    if name == "trace"@ {
        LevelFilter::Trace
    } else if name == "debug"@ {
        LevelFilter::Debug
    } else if name == "warn"@ {
        LevelFilter::Warn
    } else if name == "error"@ {
        LevelFilter::Error
    } else {
        LevelFilter::Info
    }
}

/// The small letter of a capital ASCII letter; any other character itself.
pub open spec fn small_letter(c: char) -> char {
    if 'A' <= c && c <= 'Z' {
        (c as u32 + 32) as char
    } else {
        c
    }
}

/// A text with its capital ASCII letters made small.
pub open spec fn ascii_small(s: Seq<char>) -> Seq<char> {
    s.map_values(|c: char| small_letter(c))
}

/// What `str::to_lowercase` makes of `s`.
pub uninterp spec fn lowercase(s: Seq<char>) -> Seq<char>;

/// `str::to_lowercase`: the text in small letters, by Unicode's mapping. In ASCII
/// text that makes the capital letters small and leaves all else as it is.
#[verifier::external_body]
fn to_lowercase(s: &str) -> (small: String)
    ensures
        small@ == lowercase(s@),
        is_ascii_chars(s@) ==> small@ == ascii_small(s@),
{
    s.to_lowercase()
}

/// The level that a name in small letters stands for.
pub fn level_of_small_name(name: &str) -> (level: LevelFilter)
    ensures
        level == level_named(name@),
{
    if same_text(name, "trace") {
        LevelFilter::Trace
    } else if same_text(name, "debug") {
        LevelFilter::Debug
    } else if same_text(name, "warn") {
        LevelFilter::Warn
    } else if same_text(name, "error") {
        LevelFilter::Error
    } else {
        LevelFilter::Info
    }
}

/// The level that a name stands for, in letters of either case.
pub fn level_of_name(name: &str) -> (level: LevelFilter)
    ensures
        level == level_named(lowercase(name@)),
        is_ascii_chars(name@) ==> level == level_named(ascii_small(name@)),
{
    let small: String = to_lowercase(name);
    level_of_small_name(small.as_str())
}

/// The five levels have five names.
pub proof fn law_every_level_has_a_name(level: LevelFilter)
    ensures
        level == level_named(
            match level {
                LevelFilter::Error => "error"@,
                LevelFilter::Warn => "warn"@,
                LevelFilter::Info => "info"@,
                LevelFilter::Debug => "debug"@,
                LevelFilter::Trace => "trace"@,
            },
        ),
{
    reveal_strlit("error");
    reveal_strlit("warn");
    reveal_strlit("info");
    reveal_strlit("debug");
    reveal_strlit("trace");
    assert("trace"@[0] == 't' && "debug"@[0] == 'd' && "warn"@[0] == 'w' && "error"@[0] == 'e'
        && "info"@[0] == 'i');
}

/// A name that is not one of the four other levels' stands for `Info`, and the names
/// of two levels are never the same.
pub proof fn law_any_other_name_is_info(name: Seq<char>)
    ensures
        level_named(name) is Trace <==> name == "trace"@,
        level_named(name) is Debug <==> name == "debug"@,
        level_named(name) is Warn <==> name == "warn"@,
        level_named(name) is Error <==> name == "error"@,
        level_named(name) is Info <==> name != "trace"@ && name != "debug"@ && name != "warn"@
            && name != "error"@,
{
    law_every_level_has_a_name(LevelFilter::Trace);
    law_every_level_has_a_name(LevelFilter::Debug);
    law_every_level_has_a_name(LevelFilter::Warn);
    law_every_level_has_a_name(LevelFilter::Error);
}

/// The level that is found for a name is the one that the name stands for once it is in
/// small letters.
pub proof fn law_the_found_level_is_the_names(
    name: &str,
    small: LevelFilter,
    level: LevelFilter,
)
    requires
        call_ensures(level_of_small_name, (name,), small),
        call_ensures(level_of_name, (name,), level),
    ensures
        small == level_named(name@),
        level == level_named(lowercase(name@)),
        is_ascii_chars(name@) ==> level == level_named(ascii_small(name@)),
{
}

/// Capital letters do not matter: a name in ASCII stands for the same level as the
/// name with each capital letter written small.
pub proof fn law_capital_letters_do_not_matter(name: Seq<char>, small: Seq<char>)
    requires
        name.len() == small.len(),
        forall|i: int|
            0 <= i < name.len() ==> if 'A' <= #[trigger] name[i] && name[i] <= 'Z' {
                small[i] as int == name[i] as int + 32
            } else {
                small[i] == name[i]
            },
    ensures
        ascii_small(name) == small,
        level_named(ascii_small(name)) == level_named(small),
{
    assert forall|i: int| 0 <= i < name.len() implies ascii_small(name)[i] == small[i] by {
        let c = name[i];
        if 'A' <= c && c <= 'Z' {
            assert((c as u32 + 32) as char as int == c as int + 32);
        }
    }
    assert(ascii_small(name) =~= small);
}

} // verus!
