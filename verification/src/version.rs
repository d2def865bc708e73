//! Java version detection: the version string that `java -version` prints and
//! the major release number it denotes.
use vstd::prelude::*;
use crate::pattern::{self, captures_of, compile_regex, group_of};
use crate::text::{self, find_char, parse_u32_range};

verus! {

/// The major release of a Java version string: its first dot-separated piece
/// read as a `u32`, except that a first piece of `1` (the `1.8.0_292` style)
/// means the second piece is the major release.
pub open spec fn java_major_spec(version: Seq<char>) -> Option<u32> {
    let d1 = text::first_of(version, '.');
    match text::parse_u32_spec(version.take(d1)) {
        None => None,
        Some(first) => if first == 1 {
            if d1 < version.len() {
                let rest = version.skip(d1 + 1);
                text::parse_u32_spec(rest.take(text::first_of(rest, '.')))
            } else {
                None
            }
        } else {
            Some(first)
        },
    }
}

/// The major release of a Java version string (see `java_major_spec`).
pub fn java_major(version: &str) -> (r: Option<u32>)
    ensures
        r == java_major_spec(version@),
{
    let n = version.unicode_len();
    let d1 = find_char(version, '.', 0, n);
    assert(version@.subrange(0, n as int) =~= version@);
    assert(version@.subrange(0, d1 as int) =~= version@.take(d1 as int));
    let first = parse_u32_range(version, 0, d1);
    match first {
        None => None,
        Some(f) => {
            if f == 1 {
                if d1 < n {
                    let d2 = find_char(version, '.', d1 + 1, n);
                    let ghost rest = version@.skip(d1 + 1);
                    assert(version@.subrange(d1 + 1, n as int) =~= rest);
                    assert(version@.subrange(d1 + 1, d2 as int) =~= rest.take(d2 - d1 - 1));
                    parse_u32_range(version, d1 + 1, d2)
                } else {
                    None
                }
            } else {
                Some(f)
            }
        },
    }
}

/// The pattern that finds the quoted version in `java -version` output: a
/// double quote, a digit, any run of non-quote characters, a double quote.
pub open spec fn java_version_pattern() -> Seq<char> {
    "\"([0-9][^\"]*)\""@
}

/// The version text found by `java_version_pattern` in `text`: group 1 of its
/// leftmost match.
pub open spec fn java_version_spec(text: Seq<char>) -> Option<Seq<char>> {
    if pattern::regex_compiles(java_version_pattern()) {
        pattern::group_text(pattern::regex_captures(java_version_pattern(), text), 1)
    } else {
        None
    }
}

/// The version text in a capture result of `java_version_pattern`.
pub fn java_version_from_captures(caps: &Option<Vec<Option<String>>>) -> (r: Option<String>)
    ensures
        r.deep_view() == pattern::group_text(caps.deep_view(), 1),
{
    group_of(caps, 1)
}

/// Extracts the quoted version from the output of `java -version`.
pub fn parse_java_version(text: &str) -> (r: Option<String>)
    ensures
        r.deep_view() == java_version_spec(text@),
{
    let re = compile_regex("\"([0-9][^\"]*)\"");
    match re {
        None => None,
        Some(re) => {
            let caps = captures_of(&re, text);
            java_version_from_captures(&caps)
        },
    }
}

} // verus!
