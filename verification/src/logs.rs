//! Classification of BlueMap log lines and the bounded log that a job keeps.
use vstd::prelude::*;
use std::collections::VecDeque;
use crate::text::{self, contains_text, to_ascii_lowercase};

verus! {

/// The most log lines a job keeps; older lines are dropped first.
pub const MAX_LOG_LINES: usize = 500;

/// A log line reports a fatal problem: in its ASCII-lower-cased form it does
/// not mention `failed to load resource` (BlueMap reports missing optional
/// resources that way) and it mentions `[error]`, ` error]`,
/// `exception in thread` or `fatal`.
pub open spec fn is_fatal_spec(line: Seq<char>) -> bool {
    let lower = text::ascii_lower(line);
    &&& !text::contains_seq(lower, "failed to load resource"@)
    &&& {
        ||| text::contains_seq(lower, "[error]"@)
        ||| text::contains_seq(lower, " error]"@)
        ||| text::contains_seq(lower, "exception in thread"@)
        ||| text::contains_seq(lower, "fatal"@)
    }
}

/// Whether a log line reports a fatal problem (see `is_fatal_spec`).
pub fn is_fatal_log_line(line: &str) -> (b: bool)
    ensures
        b == is_fatal_spec(line@),
{
    let lower = to_ascii_lowercase(line);
    if contains_text(lower.as_str(), "failed to load resource") {
        return false;
    }
    contains_text(lower.as_str(), "[error]") || contains_text(lower.as_str(), " error]")
        || contains_text(lower.as_str(), "exception in thread") || contains_text(
        lower.as_str(),
        "fatal",
    )
}

/// The log after `line` arrives: a line equal to the newest one is not
/// repeated; otherwise it is appended and the oldest lines are dropped until
/// at most `MAX_LOG_LINES` remain.
pub open spec fn pushed_log(logs: Seq<Seq<char>>, line: Seq<char>) -> Seq<Seq<char>> {
    if logs.len() > 0 && logs.last() == line {
        logs
    } else {
        let grown = logs.push(line);
        if grown.len() > MAX_LOG_LINES {
            grown.skip(grown.len() - MAX_LOG_LINES)
        } else {
            grown
        }
    }
}

/// A well-kept log: at most `MAX_LOG_LINES` lines, and no line directly
/// repeats the one before it.
pub open spec fn log_well_kept(logs: Seq<Seq<char>>) -> bool {
    &&& logs.len() <= MAX_LOG_LINES
    &&& forall|i: int| 0 < i < logs.len() ==> #[trigger] logs[i] != logs[i - 1]
}

/// Adds a line to a bounded log (see `pushed_log`).
pub fn push_line(logs: &mut VecDeque<String>, line: String)
    ensures
        final(logs).deep_view() == pushed_log(old(logs).deep_view(), line@),
{
    let n = logs.len();
    if n > 0 && logs[n - 1] == line {
        assert(logs.deep_view().last() == line@);
        return;
    }
    let ghost before = logs.deep_view();
    let ghost grown = before.push(line@);
    assert(!(before.len() > 0 && before.last() == line@)) by {
        if before.len() > 0 {
            assert(before.last() == logs@[n - 1]@);
        }
    }
    logs.push_back(line);
    assert(logs.deep_view() =~= grown);
    while logs.len() > MAX_LOG_LINES
        invariant
            logs.len() <= grown.len(),
            grown.len() > MAX_LOG_LINES ==> logs.len() >= MAX_LOG_LINES,
            grown.len() <= MAX_LOG_LINES ==> logs.len() == grown.len(),
            logs.deep_view() =~= grown.skip(grown.len() - logs.len()),
        decreases logs.len(),
    {
        let ghost prev = logs.deep_view();
        let _ = logs.pop_front();
        assert(logs.deep_view() =~= prev.skip(1));
    }
    proof {
        if grown.len() > MAX_LOG_LINES {
            assert(logs.len() == MAX_LOG_LINES);
        } else {
            assert(grown.skip(0) =~= grown);
        }
    }
}

/// Law: the newest line of the log is always the line just received.
pub proof fn law_newest_line_is_last_received(logs: Seq<Seq<char>>, line: Seq<char>)
    ensures
        pushed_log(logs, line).len() > 0,
        pushed_log(logs, line).last() == line,
{
}

/// Law: receiving a line keeps a well-kept log well kept: it never grows
/// beyond `MAX_LOG_LINES` lines and never holds a line twice in a row.
pub proof fn law_log_stays_well_kept(logs: Seq<Seq<char>>, line: Seq<char>)
    requires
        log_well_kept(logs),
    ensures
        log_well_kept(pushed_log(logs, line)),
{
    let r = pushed_log(logs, line);
    if !(logs.len() > 0 && logs.last() == line) {
        let grown = logs.push(line);
        assert forall|i: int| 0 < i < grown.len() implies #[trigger] grown[i] != grown[i - 1] by {
            if i == grown.len() - 1 {
            } else {
                assert(grown[i] == logs[i]);
            }
        }
        if grown.len() > MAX_LOG_LINES {
            let k = grown.len() - MAX_LOG_LINES;
            assert forall|i: int| 0 < i < r.len() implies #[trigger] r[i] != r[i - 1] by {
                assert(r[i] == grown[i + k]);
                assert(r[i - 1] == grown[i - 1 + k]);
            }
        }
    }
}

/// Law: a line different from the newest one is kept, together with every
/// earlier line that still fits within `MAX_LOG_LINES`, in arrival order.
pub proof fn law_log_keeps_recent_lines(logs: Seq<Seq<char>>, line: Seq<char>)
    requires
        logs.len() <= MAX_LOG_LINES,
        logs.len() == 0 || logs.last() != line,
    ensures
        pushed_log(logs, line) == (if logs.len() < MAX_LOG_LINES {
            logs.push(line)
        } else {
            logs.skip(1).push(line)
        }),
{
    if logs.len() == MAX_LOG_LINES {
        assert(logs.push(line).skip(1) =~= logs.skip(1).push(line));
    }
}

/// A line is fatal only when its ASCII-lower-cased text mentions `[error]`,
/// ` error]`, `exception in thread` or `fatal`, and never when it mentions
/// `failed to load resource`; a line mentioning none of the four markers,
/// such as a warning, is not fatal.
pub proof fn law_fatal_needs_a_marker(line: Seq<char>)
    ensures
        is_fatal_spec(line) ==> !text::contains_seq(text::ascii_lower(line), "failed to load resource"@),
        !text::contains_seq(text::ascii_lower(line), "[error]"@) && !text::contains_seq(
            text::ascii_lower(line),
            " error]"@,
        ) && !text::contains_seq(text::ascii_lower(line), "exception in thread"@)
            && !text::contains_seq(text::ascii_lower(line), "fatal"@) ==> !is_fatal_spec(line),
{
}

/// Each of the four markers, in a line that does not mention `failed to load
/// resource`, makes the line fatal.
pub proof fn law_marker_makes_line_fatal(line: Seq<char>)
    requires
        !text::contains_seq(text::ascii_lower(line), "failed to load resource"@),
    ensures
        text::contains_seq(text::ascii_lower(line), "[error]"@) ==> is_fatal_spec(line),
        text::contains_seq(text::ascii_lower(line), " error]"@) ==> is_fatal_spec(line),
        text::contains_seq(text::ascii_lower(line), "exception in thread"@) ==> is_fatal_spec(line),
        text::contains_seq(text::ascii_lower(line), "fatal"@) ==> is_fatal_spec(line),
{
}

/// What one poll of the BlueMap log file got.
pub enum LogRead {
    /// The file could not be opened, positioned or read: nothing was handed
    /// over.
    Failed,
    /// The file was read from the offset to its end and that text handed
    /// over; where the file's position stood afterwards, when it could be
    /// asked.
    Read { position: Option<u64> },
}

/// Where the next poll reads from: the position after a read when known,
/// otherwise where this poll read from.
pub open spec fn next_offset_spec(offset: u64, read: LogRead) -> u64 {
    match read {
        LogRead::Read { position: Some(p) } => p,
        _ => offset,
    }
}

/// Where the next poll reads from (see `next_offset_spec`).
pub fn next_log_offset(offset: u64, read: LogRead) -> (r: u64)
    ensures
        r == next_offset_spec(offset, read),
{
    match read {
        LogRead::Read { position: Some(p) } => p,
        _ => offset,
    }
}

/// The offset the poll at index `k` reads from, the first reading from
/// `start`.
pub open spec fn offset_before(start: u64, reads: Seq<LogRead>, k: int) -> u64
    decreases k,
{
    if k <= 0 {
        start
    } else {
        next_offset_spec(offset_before(start, reads, k - 1), reads[k - 1])
    }
}

/// Every read of the polls stopped at a known position no earlier than where
/// it started: the bytes it handed over are those from its offset to that
/// position.
pub open spec fn reads_move_forward(start: u64, reads: Seq<LogRead>) -> bool {
    forall|k: int|
        0 <= k < reads.len() ==> (#[trigger] reads[k] matches LogRead::Read { position } ==> (
        position matches Some(p) && offset_before(start, reads, k) <= p))
}

/// Offsets never move back while reads move forward.
proof fn lemma_offsets_grow(start: u64, reads: Seq<LogRead>, i: int, j: int)
    requires
        reads_move_forward(start, reads),
        0 <= i <= j <= reads.len(),
    ensures
        offset_before(start, reads, i) <= offset_before(start, reads, j),
    decreases j - i,
{
    if i < j {
        lemma_offsets_grow(start, reads, i, j - 1);
        assert(reads[j - 1] is Read ==> offset_before(start, reads, j - 1) <= offset_before(
            start,
            reads,
            j,
        ));
    }
}

/// Each byte of the log file is handed over at most once and in file order:
/// when every read moves forward, the bytes handed over by a read end no
/// later than where any later poll starts reading.
pub proof fn law_log_bytes_handed_once_in_order(start: u64, reads: Seq<LogRead>, i: int, j: int)
    requires
        reads_move_forward(start, reads),
        0 <= i < j < reads.len(),
        reads[i] is Read,
    ensures
        offset_before(start, reads, i) <= next_offset_spec(offset_before(start, reads, i), reads[i])
            <= offset_before(start, reads, j),
{
    assert(reads[i] is Read);
    lemma_offsets_grow(start, reads, i + 1, j);
}

} // verus!
