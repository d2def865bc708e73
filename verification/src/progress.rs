//! Render progress as BlueMap reports it in its log lines:
//! `updating map 'overworld': 42.5% (ETA: 3:10)`.
use vstd::prelude::*;
use crate::pattern::{self, captures_of, compile_regex, group_of};

verus! {

/// Progress of one map: its name, the percentage as printed, and the
/// estimated time left as printed.
pub struct ProgressInfo {
    pub map: String,
    pub percent: String,
    pub eta: String,
}

/// The plain-value model of `ProgressInfo`.
pub struct ProgressView {
    pub map: Seq<char>,
    pub percent: Seq<char>,
    pub eta: Seq<char>,
}

impl View for ProgressInfo {
    type V = ProgressView;

    open spec fn view(&self) -> ProgressView {
        ProgressView { map: self.map@, percent: self.percent@, eta: self.eta@ }
    }
}

impl DeepView for ProgressInfo {
    type V = ProgressView;

    open spec fn deep_view(&self) -> ProgressView {
        self@
    }
}

impl ProgressInfo {
    /// A copy of the progress record.
    pub fn duplicate(&self) -> (r: ProgressInfo)
        ensures
            r@ == self@,
    {
        ProgressInfo { map: self.map.clone(), percent: self.percent.clone(), eta: self.eta.clone() }
    }
}

/// A copy of an optional progress record.
pub fn duplicate_progress(p: &Option<ProgressInfo>) -> (r: Option<ProgressInfo>)
    ensures
        r.deep_view() == p.deep_view(),
{
    match p {
        Some(x) => Some(x.duplicate()),
        None => None,
    }
}

/// The number of `.` characters in `s`.
pub open spec fn dot_count(s: Seq<char>) -> nat
    decreases s.len(),
{
    if s.len() == 0 {
        0
    } else {
        dot_count(s.drop_last()) + if s.last() == '.' { 1nat } else { 0nat }
    }
}

/// A text of digits and dots that `f64::from_str` accepts: only digits and
/// `.`, at most one `.`, and at least one digit.
pub open spec fn is_decimal_number(s: Seq<char>) -> bool {
    &&& forall|i: int| 0 <= i < s.len() ==> ('0' <= #[trigger] s[i] && s[i] <= '9') || s[i] == '.'
    &&& dot_count(s) <= 1
    &&& exists|i: int| 0 <= i < s.len() && '0' <= #[trigger] s[i] && s[i] <= '9'
}

/// Whether the text is a decimal number (see `is_decimal_number`).
pub fn decimal_number_text(s: &str) -> (b: bool)
    ensures
        b == is_decimal_number(s@),
{
    let n = s.unicode_len();
    let mut dots: usize = 0;
    let mut digits: bool = false;
    let mut i: usize = 0;
    while i < n
        invariant
            n == s@.len(),
            i <= n,
            dots == dot_count(s@.take(i as int)),
            dots <= 1,
            forall|k: int| 0 <= k < i ==> ('0' <= #[trigger] s@[k] && s@[k] <= '9') || s@[k] == '.',
            digits == exists|k: int| 0 <= k < i && '0' <= #[trigger] s@[k] && s@[k] <= '9',
        decreases n - i,
    {
        let c = s.get_char(i);
        assert(s@.take(i + 1).drop_last() =~= s@.take(i as int));
        if c == '.' {
            if dots == 1 {
                proof {
                    lemma_dot_count_prefix(s@, i + 1);
                }
                return false;
            }
            dots = dots + 1;
        } else if '0' <= c && c <= '9' {
            digits = true;
        } else {
            return false;
        }
        i = i + 1;
    }
    assert(s@.take(n as int) =~= s@);
    digits
}

proof fn lemma_dot_count_prefix(s: Seq<char>, k: int)
    requires
        0 <= k <= s.len(),
    ensures
        dot_count(s.take(k)) <= dot_count(s),
    decreases s.len() - k,
{
    if k < s.len() {
        assert(s.take(k + 1).drop_last() =~= s.take(k));
        lemma_dot_count_prefix(s, k + 1);
    } else {
        assert(s.take(k) =~= s);
    }
}

/// The pattern of a progress line: the map name in single quotes, the
/// percentage, and the ETA in parentheses.
pub open spec fn progress_pattern() -> Seq<char> {
    "updating map '([^']+)': ([0-9.]+)% \\(ETA: ([^)]+)\\)"@
}

/// The progress that a capture result of `progress_pattern` denotes: groups 1
/// to 3 must all be present and group 2 must be a decimal number.
pub open spec fn progress_from_groups(caps: Option<Seq<Option<Seq<char>>>>) -> Option<ProgressView> {
    let map = pattern::group_text(caps, 1);
    let percent = pattern::group_text(caps, 2);
    let eta = pattern::group_text(caps, 3);
    if map is Some && percent is Some && eta is Some && is_decimal_number(percent->0) {
        Some(ProgressView { map: map->0, percent: percent->0, eta: eta->0 })
    } else {
        None
    }
}

/// The progress reported by a log line, if it is a progress line.
pub open spec fn progress_of_line(line: Seq<char>) -> Option<ProgressView> {
    if pattern::regex_compiles(progress_pattern()) {
        progress_from_groups(pattern::regex_captures(progress_pattern(), line))
    } else {
        None
    }
}

/// The progress in a capture result of `progress_pattern`.
pub fn progress_from_captures(caps: &Option<Vec<Option<String>>>) -> (r: Option<ProgressInfo>)
    ensures
        r.deep_view() == progress_from_groups(caps.deep_view()),
{
    let map = group_of(caps, 1);
    let percent = group_of(caps, 2);
    let eta = group_of(caps, 3);
    match (map, percent, eta) {
        (Some(map), Some(percent), Some(eta)) => {
            if decimal_number_text(percent.as_str()) {
                Some(ProgressInfo { map, percent, eta })
            } else {
                None
            }
        },
        _ => None,
    }
}

/// Reads the progress from a BlueMap log line.
pub fn parse_progress(line: &str) -> (r: Option<ProgressInfo>)
    ensures
        r.deep_view() == progress_of_line(line@),
{
    match compile_regex("updating map '([^']+)': ([0-9.]+)% \\(ETA: ([^)]+)\\)") {
        None => None,
        Some(re) => {
            let caps = captures_of(&re, line);
            progress_from_captures(&caps)
        },
    }
}

} // verus!
