use crate::config_loader::regex_utils::{
    all_captures, capture, group_of, match_texts, opt_texts, regex_all_captures, regex_captures,
};
use crate::text::{clone_opt, contains, has_substring, opt_text, parse_u64, same_text, unsigned_of};
use vstd::prelude::*;

verus! {

/// What a line of the log tells of one commit of a routine load job.
#[derive(Debug)]
pub struct LogCommitEntry {
    /// When the line was written, in seconds since the start of 1970, read
    /// without a time zone.
    pub timestamp: i64,
    pub loaded_rows: Option<u64>,
    pub received_bytes: Option<u64>,
    pub task_execution_ms: Option<u64>,
    pub transaction_id: Option<String>,
}

/// What a `LogCommitEntry` holds, as plain values.
pub struct LogCommitEntryView {
    pub timestamp: i64,
    pub loaded_rows: Option<u64>,
    pub received_bytes: Option<u64>,
    pub task_execution_ms: Option<u64>,
    pub transaction_id: Option<Seq<char>>,
}

impl View for LogCommitEntry {
    type V = LogCommitEntryView;

    open spec fn view(&self) -> LogCommitEntryView {
        LogCommitEntryView {
            timestamp: self.timestamp,
            loaded_rows: self.loaded_rows,
            received_bytes: self.received_bytes,
            task_execution_ms: self.task_execution_ms,
            transaction_id: opt_text(self.transaction_id),
        }
    }
}

impl Clone for LogCommitEntry {
    fn clone(&self) -> (r: LogCommitEntry)
        ensures
            r@ == self@,
    {
        LogCommitEntry {
            timestamp: self.timestamp,
            loaded_rows: self.loaded_rows,
            received_bytes: self.received_bytes,
            task_execution_ms: self.task_execution_ms,
            transaction_id: clone_opt(&self.transaction_id),
        }
    }
}

/// What a vector of entries holds.
pub open spec fn entry_views(v: Seq<LogCommitEntry>) -> Seq<LogCommitEntryView> {
    Seq::new(v.len(), |i: int| v[i]@)
}

/// Names what the `chrono` crate reads in a text as a date and a time of day
/// written `2025-08-01 14:46:22`: the seconds from the start of 1970 to that
/// time, read without a time zone; nothing where the text is not so written.
pub uninterp spec fn log_time(text: Seq<char>) -> Option<i64>;

/// `NaiveDateTime::parse_from_str` with the format `%Y-%m-%d %H:%M:%S`, then
/// `and_utc` and `timestamp`. The contract names the result and claims nothing
/// more.
#[verifier::external_body]
pub(crate) fn parse_log_time(text: &str) -> (r: Option<i64>)
    ensures
        r == log_time(text@),
{
    chrono::NaiveDateTime::parse_from_str(text, "%Y-%m-%d %H:%M:%S")
        .ok()
        .map(|t| t.and_utc().timestamp())
}

/// Reads the lines of the coordination role's log.
#[derive(Debug, Clone, Copy, PartialEq, Eq, Structural)]
pub struct FeLogParser;

/// The pattern of the time at the head of a line.
pub open spec fn time_pattern() -> Seq<char> {
    "^(?P<ts>\\d{4}-\\d{2}-\\d{2} \\d{2}:\\d{2}:\\d{2}),\\d{3}"@
}

/// The pattern of a counter in a line.
pub open spec fn counter_pattern() -> Seq<char> {
    "(loadedRows|receivedBytes|taskExecutionTimeMs)=([0-9]+)"@
}

/// The pattern of the transaction in a line.
pub open spec fn transaction_pattern() -> Seq<char> {
    "transactionId:([0-9A-Za-z_-]+)"@
}

/// Whether a line is of interest: it names the job, and tells of a commit.
pub open spec fn tells_commit(line: Seq<char>, job_id: Seq<char>) -> bool {
    has_substring(line, job_id) && (has_substring(line, "commitTxn"@) || has_substring(
        line,
        "RLTaskTxnCommitAttachment"@,
    ))
}

/// An entry with the counters of a line entered in order; nothing where a
/// counter is no number.
pub open spec fn with_counters(entry: LogCommitEntryView, found: Seq<Seq<Option<Seq<char>>>>)
    -> Option<LogCommitEntryView>
    decreases found.len(),
{
    if found.len() == 0 {
        Some(entry)
    } else {
        let name = group_of(Some(found[0]), 1);
        let value = match group_of(Some(found[0]), 2) {
            Some(t) => unsigned_of(t, 0xFFFF_FFFF_FFFF_FFFF),
            None => None,
        };
        match value {
            None => None,
            Some(n) => {
                let v = n as u64;
                let next = if name == Some("loadedRows"@) {
                    LogCommitEntryView { loaded_rows: Some(v), ..entry }
                } else if name == Some("receivedBytes"@) {
                    LogCommitEntryView { received_bytes: Some(v), ..entry }
                } else if name == Some("taskExecutionTimeMs"@) {
                    LogCommitEntryView { task_execution_ms: Some(v), ..entry }
                } else {
                    entry
                };
                with_counters(next, found.drop_first())
            },
        }
    }
}

/// What a line tells of a commit, given what the patterns found in it: the
/// time at its head, its counters, and its transaction.
pub open spec fn entry_from(
    time: Option<Seq<char>>,
    counters: Seq<Seq<Option<Seq<char>>>>,
    transaction: Option<Seq<char>>,
) -> Option<LogCommitEntryView> {
    match time {
        Some(t) => match log_time(t) {
            Some(secs) => match with_counters(
                LogCommitEntryView {
                    timestamp: secs,
                    loaded_rows: None,
                    received_bytes: None,
                    task_execution_ms: None,
                    transaction_id: None,
                },
                counters,
            ) {
                Some(e) => Some(LogCommitEntryView { transaction_id: transaction, ..e }),
                None => None,
            },
            None => None,
        },
        None => None,
    }
}

/// What a line of the log tells of a commit of a job; nothing for a line that is
/// of no interest or cannot be read.
pub open spec fn entry_of(line: Seq<char>, job_id: Seq<char>) -> Option<LogCommitEntryView> {
    if tells_commit(line, job_id) {
        entry_from(
            group_of(regex_captures(time_pattern(), line), 1),
            regex_all_captures(counter_pattern(), line),
            group_of(regex_captures(transaction_pattern(), line), 1),
        )
    } else {
        None
    }
}

/// What an optional entry holds.
pub open spec fn opt_entry(o: Option<LogCommitEntry>) -> Option<LogCommitEntryView> {
    match o {
        Some(e) => Some(e@),
        None => None,
    }
}

/// A captured text of a match.
fn group(groups: &Vec<Option<String>>, i: usize) -> (r: Option<String>)
    ensures
        opt_text(r) == group_of(Some(opt_texts(groups@)), i as int),
{
    if i < groups.len() {
        clone_opt(&groups[i])
    } else {
        None
    }
}

impl FeLogParser {
    /// A reader of the log.
    pub fn new() -> (r: FeLogParser) {
        FeLogParser
    }

    /// What a line tells of a commit, given the seconds that the time at its head
    /// stands for, the counters found in it, and its transaction.
    pub fn entry_from_parts(
        &self,
        seconds: Option<i64>,
        counters: &Vec<Vec<Option<String>>>,
        transaction: Option<String>,
    ) -> (r: Option<LogCommitEntry>)
        ensures
            opt_entry(r) == match seconds {
                Some(secs) => match with_counters(
                    LogCommitEntryView {
                        timestamp: secs,
                        loaded_rows: None,
                        received_bytes: None,
                        task_execution_ms: None,
                        transaction_id: None,
                    },
                    match_texts(counters@),
                ) {
                    Some(e) => Some(
                        LogCommitEntryView { transaction_id: opt_text(transaction), ..e },
                    ),
                    None => None,
                },
                None => None,
            },
    {
        let timestamp = match seconds {
            Some(s) => s,
            None => {
                return None;
            },
        };
        let mut entry = LogCommitEntry {
            timestamp,
            loaded_rows: None,
            received_bytes: None,
            task_execution_ms: None,
            transaction_id: None,
        };
        let ghost start = entry@;
        let ghost all = match_texts(counters@);
        let mut i: usize = 0;
        assert(all.skip(0) == all);
        while i < counters.len()
            invariant
                i <= counters.len(),
                all == match_texts(counters@),
                seconds is Some,
                start == (LogCommitEntryView {
                    timestamp: seconds->0,
                    loaded_rows: None,
                    received_bytes: None,
                    task_execution_ms: None,
                    transaction_id: None,
                }),
                entry@.transaction_id is None,
                with_counters(start, all) == with_counters(entry@, all.skip(i as int)),
            decreases counters.len() - i,
        {
            assert(all.skip(i as int)[0] == opt_texts(counters@[i as int]@));
            assert(all.skip(i as int).drop_first() == all.skip(i + 1));
            let name = group(&counters[i], 1);
            let value = match group(&counters[i], 2) {
                Some(t) => parse_u64(t.as_str()),
                None => None,
            };
            let v = match value {
                Some(n) => n,
                None => {
                    return None;
                },
            };
            match name {
                Some(k) => {
                    if same_text(k.as_str(), "loadedRows") {
                        entry.loaded_rows = Some(v);
                    } else if same_text(k.as_str(), "receivedBytes") {
                        entry.received_bytes = Some(v);
                    } else if same_text(k.as_str(), "taskExecutionTimeMs") {
                        entry.task_execution_ms = Some(v);
                    }
                },
                None => {},
            }
            i += 1;
        }
        entry.transaction_id = transaction;
        Some(entry)
    }

    /// What a line of the log tells of a commit of a job.
    pub fn parse_line(&self, line: &str, job_id: &str) -> (r: Option<LogCommitEntry>)
        ensures
            opt_entry(r) == entry_of(line@, job_id@),
    {
        if !contains(line, job_id) {
            return None;
        }
        if !(contains(line, "commitTxn") || contains(line, "RLTaskTxnCommitAttachment")) {
            return None;
        }
        let ts = capture("^(?P<ts>\\d{4}-\\d{2}-\\d{2} \\d{2}:\\d{2}:\\d{2}),\\d{3}", line, 1);
        let seconds = match ts {
            Some(t) => parse_log_time(t.as_str()),
            None => None,
        };
        let counters = all_captures("(loadedRows|receivedBytes|taskExecutionTimeMs)=([0-9]+)", line);
        let transaction = capture("transactionId:([0-9A-Za-z_-]+)", line, 1);
        self.entry_from_parts(seconds, &counters, transaction)
    }

    /// Reads the lines of a log into `out`: each line that tells of a commit of
    /// the job adds an entry.
    pub fn scan_lines(&self, lines: &Vec<String>, job_id: &str, out: &mut Vec<LogCommitEntry>)
        ensures
            entry_views(final(out)@) == entry_views(old(out)@) + entries_of(
                crate::text::texts(lines@),
                job_id@,
            ),
    {
        let ghost all = crate::text::texts(lines@);
        let ghost held = entry_views(out@);
        let mut i: usize = 0;
        assert(all.take(0) =~= Seq::<Seq<char>>::empty());
        assert(entry_views(out@) =~= held + entries_of(all.take(0), job_id@));
        while i < lines.len()
            invariant
                i <= lines.len(),
                all == crate::text::texts(lines@),
                entry_views(out@) == held + entries_of(all.take(i as int), job_id@),
            decreases lines.len() - i,
        {
            let ghost next = all.take(i + 1);
            assert(next.drop_last() == all.take(i as int));
            assert(next.last() == lines@[i as int]@);
            match self.parse_line(lines[i].as_str(), job_id) {
                Some(entry) => {
                    let ghost before = entry_views(out@);
                    let ghost added = entry@;
                    out.push(entry);
                    assert(entry_views(out@) =~= before.push(added));
                    assert(entry_views(out@) =~= held + entries_of(next, job_id@));
                },
                None => {},
            }
            i += 1;
        }
        assert(all.take(lines.len() as int) == all);
    }

    /// Reads the lines of several logs, one after the other.
    pub fn scan_files(&self, files: &Vec<Vec<String>>, job_id: &str) -> (r: Vec<LogCommitEntry>)
        ensures
            entry_views(r@) == entries_in(file_texts(files@), job_id@),
    {
        let ghost all = file_texts(files@);
        let mut out: Vec<LogCommitEntry> = Vec::new();
        let mut i: usize = 0;
        assert(all.take(0) =~= Seq::<Seq<Seq<char>>>::empty());
        assert(entry_views(out@) =~= seq![]);
        while i < files.len()
            invariant
                i <= files.len(),
                all == file_texts(files@),
                entry_views(out@) == entries_in(all.take(i as int), job_id@),
            decreases files.len() - i,
        {
            let ghost next = all.take(i + 1);
            assert(next.drop_last() == all.take(i as int));
            assert(next.last() == crate::text::texts(files@[i as int]@));
            self.scan_lines(&files[i], job_id, &mut out);
            i += 1;
        }
        assert(all.take(files.len() as int) == all);
        out
    }
}

/// What the files of a list hold: the lines of each.
pub open spec fn file_texts(files: Seq<Vec<String>>) -> Seq<Seq<Seq<char>>> {
    Seq::new(files.len(), |i: int| crate::text::texts(files[i]@))
}

/// The entries that the lines of several logs give for a job: those of the first
/// log, then those of the next, and so on.
pub open spec fn entries_in(files: Seq<Seq<Seq<char>>>, job_id: Seq<char>) -> Seq<
    LogCommitEntryView,
>
    decreases files.len(),
{
    if files.len() == 0 {
        seq![]
    } else {
        entries_in(files.drop_last(), job_id) + entries_of(files.last(), job_id)
    }
}

/// The entries that the lines of a log give for a job, in order.
pub open spec fn entries_of(all: Seq<Seq<char>>, job_id: Seq<char>) -> Seq<LogCommitEntryView>
    decreases all.len(),
{
    if all.len() == 0 {
        seq![]
    } else {
        match entry_of(all.last(), job_id) {
            Some(e) => entries_of(all.drop_last(), job_id).push(e),
            None => entries_of(all.drop_last(), job_id),
        }
    }
}

} // verus!
