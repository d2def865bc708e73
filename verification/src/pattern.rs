//! Regular-expression matching, delegated to the `regex` crate.
//!
//! What a regular expression matches takes pages to state, so the results of
//! compiling and matching are named (`regex_compiles`, `regex_captures`) and
//! the rest of the library speaks of those names.
use vstd::prelude::*;

verus! {

#[verifier::external_type_specification]
#[verifier::external_body]
pub struct ExRegex(regex::Regex);

/// Whether `regex::Regex::new` accepts the pattern.
pub uninterp spec fn regex_compiles(pattern: Seq<char>) -> bool;

/// The capture groups of the leftmost-first match of `pattern` in
/// `haystack`, as `regex::Regex::captures` reports them: `None` when there is
/// no match, otherwise one entry per group (group 0 is the whole match), each
/// the matched text or `None` when the group took no part in the match.
pub uninterp spec fn regex_captures(pattern: Seq<char>, haystack: Seq<char>) -> Option<
    Seq<Option<Seq<char>>>,
>;

/// A compiled regular expression together with the pattern it was built from.
pub struct CompiledRegex {
    inner: regex::Regex,
    pattern: Ghost<Seq<char>>,
}

impl View for CompiledRegex {
    type V = Seq<char>;

    /// The pattern the expression was compiled from.
    closed spec fn view(&self) -> Seq<char> {
        self.pattern@
    }
}

/// `regex::Regex::new`.
///
/// Trusted: claims that whether compilation succeeds depends on the pattern
/// alone (`regex_compiles`), and that a compiled expression remembers its
/// pattern. The reason for a failure is dropped.
#[verifier::external_body]
pub(crate) fn compile_regex(pattern: &str) -> (r: Option<CompiledRegex>)
    ensures
        r is Some == regex_compiles(pattern@),
        r matches Some(c) ==> c@ == pattern@,
{
    match regex::Regex::new(pattern) {
        Ok(inner) => Some(CompiledRegex { inner, pattern: Ghost(pattern@) }),
        Err(_) => None,
    }
}

/// `regex::Regex::captures`, with each group converted to an owned string.
///
/// Trusted: claims that the groups reported are `regex_captures` of the
/// pattern and the haystack, that is, a function of those two texts alone.
#[verifier::external_body]
pub(crate) fn captures_of(re: &CompiledRegex, haystack: &str) -> (r: Option<Vec<Option<String>>>)
    ensures
        r.deep_view() == regex_captures(re@, haystack@),
{
    re.inner.captures(haystack).map(
        |caps| caps.iter().map(|group| group.map(|m| m.as_str().to_string())).collect(),
    )
}

/// The text of group `i` of a capture result: `None` when there was no match,
/// when the expression has no such group, or when the group did not take part.
pub open spec fn group_text(caps: Option<Seq<Option<Seq<char>>>>, i: int) -> Option<Seq<char>> {
    match caps {
        None => None,
        Some(groups) => if 0 <= i < groups.len() {
            groups[i]
        } else {
            None
        },
    }
}

/// The text of group `i` (`Captures::get(i)` followed by `as_str`).
pub fn group_of(caps: &Option<Vec<Option<String>>>, i: usize) -> (r: Option<String>)
    ensures
        r.deep_view() == group_text(caps.deep_view(), i as int),
{
    match caps {
        None => None,
        Some(groups) => {
            if i < groups.len() {
                match &groups[i] {
                    Some(t) => Some(t.clone()),
                    None => None,
                }
            } else {
                None
            }
        },
    }
}

} // verus!
