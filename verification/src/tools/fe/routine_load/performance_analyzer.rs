use crate::error::{CliError, ErrorView};
use crate::text::{
    byte_len, concat, concat3, decimal_text, grouped, pad_left, pad_right, padded_left,
    padded_right, repeat, repeated, texts, u128_to_string, u64_to_string,
};
use crate::tools::fe::routine_load::traffic_monitor::{
    minute_label, minute_text, pad_two, second_of_day, two_digits,
};
use vstd::utf8::encode_utf8;
use crate::tools::fe::routine_load::log_parser::{
    entries_in, entry_views, file_texts, FeLogParser, LogCommitEntry, LogCommitEntryView,
};
use crate::tools::Tool;
use crate::ui::utils::FormatHelper;
use vstd::prelude::*;

verus! {

/// Reads from the logs what each commit of the chosen job loaded.
#[derive(Debug, Clone, Copy, PartialEq, Eq, Structural)]
pub struct RoutineLoadPerformanceAnalyzer;

impl Tool for RoutineLoadPerformanceAnalyzer {
    open spec fn name_text(&self) -> Seq<char> {
        "routine_load_performance_analyzer"@
    }

    open spec fn description_text(&self) -> Seq<char> {
        "Analyze per-commit rows/bytes/time from FE logs"@
    }

    open spec fn needs_pid(&self) -> bool {
        false
    }

    fn name(&self) -> (r: String) {
        "routine_load_performance_analyzer".to_owned()
    }

    fn description(&self) -> (r: String) {
        "Analyze per-commit rows/bytes/time from FE logs".to_owned()
    }

    fn requires_pid(&self) -> (r: bool) {
        false
    }
}

/// What the commits of a job took and loaded, summed up.
#[derive(Debug, Clone, Copy, PartialEq, Eq, Structural)]
pub struct PerformanceStats {
    pub count: u64,
    pub sum_ms: u128,
    pub min_ms: u64,
    pub max_ms: u64,
    pub sum_rows: u128,
    pub min_rows: u64,
    pub max_rows: u64,
    pub sum_bytes: u128,
    pub min_bytes: u64,
    pub max_bytes: u64,
}

/// A figure of an entry; a figure that the entry does not tell counts as zero.
pub open spec fn figure(value: Option<u64>) -> u64 {
    match value {
        Some(n) => n,
        None => 0,
    }
}

/// The smaller of two numbers.
pub open spec fn lesser(a: u64, b: u64) -> u64 {
    if a < b {
        a
    } else {
        b
    }
}

/// The greater of two numbers.
pub open spec fn greater(a: u64, b: u64) -> u64 {
    if a > b {
        a
    } else {
        b
    }
}

/// The summary of no commit at all.
pub open spec fn no_stats() -> PerformanceStats {
    PerformanceStats {
        count: 0,
        sum_ms: 0,
        min_ms: u64::MAX,
        max_ms: 0,
        sum_rows: 0,
        min_rows: u64::MAX,
        max_rows: 0,
        sum_bytes: 0,
        min_bytes: u64::MAX,
        max_bytes: 0,
    }
}

/// The summary with one more commit counted in.
pub open spec fn stats_with(stats: PerformanceStats, entry: LogCommitEntryView)
    -> PerformanceStats {
    let ms = figure(entry.task_execution_ms);
    let rows = figure(entry.loaded_rows);
    let bytes = figure(entry.received_bytes);
    PerformanceStats {
        count: (stats.count + 1) as u64,
        sum_ms: (stats.sum_ms + ms) as u128,
        min_ms: lesser(stats.min_ms, ms),
        max_ms: greater(stats.max_ms, ms),
        sum_rows: (stats.sum_rows + rows) as u128,
        min_rows: lesser(stats.min_rows, rows),
        max_rows: greater(stats.max_rows, rows),
        sum_bytes: (stats.sum_bytes + bytes) as u128,
        min_bytes: lesser(stats.min_bytes, bytes),
        max_bytes: greater(stats.max_bytes, bytes),
    }
}

/// A least figure as it is shown: zero where no commit was counted.
pub open spec fn shown_least(least: u64) -> u64 {
    if least == u64::MAX {
        0
    } else {
        least
    }
}

/// The lines that show a summary; none where no commit was counted.
pub open spec fn summary_lines(stats: PerformanceStats) -> Seq<Seq<char>> {
    if stats.count > 0 {
        seq![
            "count="@ + decimal_text(stats.count as nat) + "  avg_ms="@ + decimal_text(
                (stats.sum_ms / (stats.count as u128)) as nat,
            ) + "  min_ms="@ + decimal_text(shown_least(stats.min_ms) as nat) + "  max_ms="@
                + decimal_text(stats.max_ms as nat),
            "          avg_rows="@ + grouped(
                decimal_text((stats.sum_rows / (stats.count as u128)) as nat),
            ) + "  min_rows="@ + grouped(decimal_text(shown_least(stats.min_rows) as nat))
                + "  max_rows="@ + grouped(decimal_text(stats.max_rows as nat)),
            "          avg_bytes="@ + grouped(
                decimal_text((stats.sum_bytes / (stats.count as u128)) as nat),
            ) + "  min_bytes="@ + grouped(decimal_text(shown_least(stats.min_bytes) as nat))
                + "  max_bytes="@ + grouped(decimal_text(stats.max_bytes as nat)),
        ]
    } else {
        seq![]
    }
}

impl PerformanceStats {
    /// Whether the sums are those of as many commits as were counted, so that
    /// one more can be counted in.
    pub open spec fn well_formed(&self) -> bool {
        &&& self.sum_ms <= self.count * 0xFFFF_FFFF_FFFF_FFFF
        &&& self.sum_rows <= self.count * 0xFFFF_FFFF_FFFF_FFFF
        &&& self.sum_bytes <= self.count * 0xFFFF_FFFF_FFFF_FFFF
    }

    /// The summary of no commit at all.
    pub fn new() -> (r: PerformanceStats)
        ensures
            r == no_stats(),
            r.well_formed(),
    {
        PerformanceStats {
            count: 0,
            sum_ms: 0,
            min_ms: u64::MAX,
            max_ms: 0,
            sum_rows: 0,
            min_rows: u64::MAX,
            max_rows: 0,
            sum_bytes: 0,
            min_bytes: u64::MAX,
            max_bytes: 0,
        }
    }

    /// Counts one more commit in.
    pub fn update(&mut self, entry: &LogCommitEntry)
        requires
            old(self).well_formed(),
            old(self).count < u64::MAX,
        ensures
            *final(self) == stats_with(*old(self), entry@),
            final(self).well_formed(),
    {
        let ms = match entry.task_execution_ms {
            Some(n) => n,
            None => 0,
        };
        let rows = match entry.loaded_rows {
            Some(n) => n,
            None => 0,
        };
        let bytes = match entry.received_bytes {
            Some(n) => n,
            None => 0,
        };
        proof {
            let c = self.count as int;
            assert(c * 0xFFFF_FFFF_FFFF_FFFF + 0xFFFF_FFFF_FFFF_FFFF <= u128::MAX)
                by (nonlinear_arith)
                requires
                    0 <= c < 0xFFFF_FFFF_FFFF_FFFF,
            ;
            assert((c + 1) * 0xFFFF_FFFF_FFFF_FFFF == c * 0xFFFF_FFFF_FFFF_FFFF
                + 0xFFFF_FFFF_FFFF_FFFF) by (nonlinear_arith);
        }
        self.count = self.count + 1;
        self.sum_ms = self.sum_ms + (ms as u128);
        self.min_ms = if self.min_ms < ms {
            self.min_ms
        } else {
            ms
        };
        self.max_ms = if self.max_ms > ms {
            self.max_ms
        } else {
            ms
        };
        self.sum_rows = self.sum_rows + (rows as u128);
        self.min_rows = if self.min_rows < rows {
            self.min_rows
        } else {
            rows
        };
        self.max_rows = if self.max_rows > rows {
            self.max_rows
        } else {
            rows
        };
        self.sum_bytes = self.sum_bytes + (bytes as u128);
        self.min_bytes = if self.min_bytes < bytes {
            self.min_bytes
        } else {
            bytes
        };
        self.max_bytes = if self.max_bytes > bytes {
            self.max_bytes
        } else {
            bytes
        };
    }

    /// The lines that show the summary.
    pub fn display_summary(&self) -> (r: Vec<String>)
        ensures
            texts(r@) == summary_lines(*self),
    {
        let mut lines: Vec<String> = Vec::new();
        if self.count > 0 {
            let count = self.count as u128;
            let least_ms = if self.min_ms == u64::MAX {
                0
            } else {
                self.min_ms
            };
            let least_rows = if self.min_rows == u64::MAX {
                0
            } else {
                self.min_rows
            };
            let least_bytes = if self.min_bytes == u64::MAX {
                0
            } else {
                self.min_bytes
            };
            let a = concat3(
                "count=",
                u64_to_string(self.count).as_str(),
                "  avg_ms=",
            );
            let b = concat3(a.as_str(), u128_to_string(self.sum_ms / count).as_str(), "  min_ms=");
            let c = concat3(b.as_str(), u64_to_string(least_ms).as_str(), "  max_ms=");
            lines.push(concat(c.as_str(), u64_to_string(self.max_ms).as_str()));
            let d = concat3(
                "          avg_rows=",
                FormatHelper::fmt_int_u128(self.sum_rows / count).as_str(),
                "  min_rows=",
            );
            let e = concat3(d.as_str(), FormatHelper::fmt_int(least_rows).as_str(), "  max_rows=");
            lines.push(concat(e.as_str(), FormatHelper::fmt_int(self.max_rows).as_str()));
            let f = concat3(
                "          avg_bytes=",
                FormatHelper::fmt_int_u128(self.sum_bytes / count).as_str(),
                "  min_bytes=",
            );
            let g = concat3(
                f.as_str(),
                FormatHelper::fmt_int(least_bytes).as_str(),
                "  max_bytes=",
            );
            lines.push(concat(g.as_str(), FormatHelper::fmt_int(self.max_bytes).as_str()));
        }
        assert(texts(lines@) =~= summary_lines(*self));
        lines
    }
}

/// The latest time of a list of entries; the time before all times for none.
pub open spec fn latest_time(entries: Seq<LogCommitEntryView>) -> int
    decreases entries.len(),
{
    if entries.len() == 0 {
        i64::MIN as int
    } else if entries.last().timestamp > latest_time(entries.drop_last()) {
        entries.last().timestamp as int
    } else {
        latest_time(entries.drop_last())
    }
}

/// The entries of a list that are not older than `start`, in order.
pub open spec fn since(entries: Seq<LogCommitEntryView>, start: int) -> Seq<LogCommitEntryView>
    decreases entries.len(),
{
    if entries.len() == 0 {
        seq![]
    } else if entries.last().timestamp >= start {
        since(entries.drop_last(), start).push(entries.last())
    } else {
        since(entries.drop_last(), start)
    }
}

/// The entries of the last minutes: those that are not older than so many
/// minutes before the latest of them.
pub open spec fn in_window(entries: Seq<LogCommitEntryView>, minutes: i64) -> Seq<
    LogCommitEntryView,
> {
    since(entries, latest_time(entries) - minutes * 60)
}

/// Whether two entries tell the same of a commit, but for its transaction.
pub open spec fn same_commit(a: LogCommitEntryView, b: LogCommitEntryView) -> bool {
    a.timestamp == b.timestamp && figure(a.loaded_rows) == figure(b.loaded_rows) && figure(
        a.received_bytes,
    ) == figure(b.received_bytes) && figure(a.task_execution_ms) == figure(b.task_execution_ms)
}

/// A list of entries with one more entry taken in: where the list has an entry
/// of the same commit, that entry stays, unless it lacks the transaction that the
/// new one tells; else the new entry is added.
pub open spec fn with_commit(kept: Seq<LogCommitEntryView>, entry: LogCommitEntryView) -> Seq<
    LogCommitEntryView,
>
    decreases kept.len(),
{
    if kept.len() == 0 {
        seq![entry]
    } else if same_commit(kept[0], entry) {
        if kept[0].transaction_id is None && entry.transaction_id is Some {
            seq![entry] + kept.drop_first()
        } else {
            kept
        }
    } else {
        seq![kept[0]] + with_commit(kept.drop_first(), entry)
    }
}

/// The entries of a list, each commit once.
pub open spec fn deduplicated(entries: Seq<LogCommitEntryView>) -> Seq<LogCommitEntryView>
    decreases entries.len(),
{
    if entries.len() == 0 {
        seq![]
    } else {
        with_commit(deduplicated(entries.drop_last()), entries.last())
    }
}

/// What is said where the logs tell nothing of the job.
pub open spec fn nothing_found() -> ErrorView {
    ErrorView::ToolExecutionFailed("No matching commit entries found in FE logs"@)
}

/// Taking an entry into a list changes the list at one place only.
proof fn lemma_with_commit_at(kept: Seq<LogCommitEntryView>, entry: LogCommitEntryView, p: int)
    requires
        0 <= p <= kept.len(),
        forall|k: int| 0 <= k < p ==> !same_commit(#[trigger] kept[k], entry),
        p < kept.len() ==> same_commit(kept[p], entry),
    ensures
        with_commit(kept, entry) == if p == kept.len() {
            kept.push(entry)
        } else if kept[p].transaction_id is None && entry.transaction_id is Some {
            kept.update(p, entry)
        } else {
            kept
        },
    decreases kept.len(),
{
    if kept.len() == 0 {
        assert(kept.push(entry) =~= seq![entry]);
    } else if p == 0 {
        assert(seq![entry] + kept.drop_first() =~= kept.update(0, entry));
    } else {
        let rest = kept.drop_first();
        assert(!same_commit(kept[0], entry));
        assert forall|k: int| 0 <= k < p - 1 implies !same_commit(#[trigger] rest[k], entry) by {
            assert(rest[k] == kept[k + 1]);
        }
        lemma_with_commit_at(rest, entry, p - 1);
        if p == kept.len() {
            assert(seq![kept[0]] + rest.push(entry) =~= kept.push(entry));
        } else if kept[p].transaction_id is None && entry.transaction_id is Some {
            assert(seq![kept[0]] + rest.update(p - 1, entry) =~= kept.update(p, entry));
        } else {
            assert(seq![kept[0]] + rest =~= kept);
        }
    }
}

/// What the analysis of the logs shows of a job: the commits of the last
/// minutes, each once. It is a failure where the logs tell nothing of the job,
/// or nothing in those minutes.
pub open spec fn analysis_of(files: Seq<Seq<Seq<char>>>, job_id: Seq<char>, minutes: i64) -> Result<
    Seq<Seq<char>>,
    ErrorView,
> {
    let kept = deduplicated(in_window(entries_in(files, job_id), minutes));
    if kept.len() == 0 {
        Err(nothing_found())
    } else {
        Ok(performance_lines(kept))
    }
}

impl RoutineLoadPerformanceAnalyzer {
    /// What the logs tell of the commits of a job. It is a failure where they
    /// tell of none.
    pub fn collect_and_parse_logs(&self, files: &Vec<Vec<String>>, job_id: &str) -> (r: Result<
        Vec<LogCommitEntry>,
        CliError,
    >)
        ensures
            match r {
                Ok(found) => entry_views(found@) == entries_in(file_texts(files@), job_id@)
                    && found@.len() > 0,
                Err(e) => entries_in(file_texts(files@), job_id@).len() == 0 && e@
                    == nothing_found(),
            },
    {
        let entries = FeLogParser::new().scan_files(files, job_id);
        if entries.len() == 0 {
            return Err(
                CliError::ToolExecutionFailed(
                    "No matching commit entries found in FE logs".to_owned(),
                ),
            );
        }
        Ok(entries)
    }

    /// The analysis of the logs of the coordination role for a job: what is
    /// shown of the commits of the last minutes.
    pub fn execute(&self, files: &Vec<Vec<String>>, job_id: &str, minutes: i64) -> (r: Result<
        Vec<String>,
        CliError,
    >)
        ensures
            match analysis_of(file_texts(files@), job_id@, minutes) {
                Ok(lines) => r is Ok && texts(r->Ok_0@) == lines,
                Err(e) => r is Err && r->Err_0@ == e,
            },
    {
        let ghost all = entries_in(file_texts(files@), job_id@);
        proof {
            if all.len() == 0 {
                assert(in_window(all, minutes) =~= seq![]);
            }
            if in_window(all, minutes).len() == 0 {
                assert(deduplicated(in_window(all, minutes)) =~= seq![]);
            }
        }
        let entries = match self.collect_and_parse_logs(files, job_id) {
            Ok(entries) => entries,
            Err(e) => {
                return Err(e);
            },
        };
        let recent = match self.filter_entries_by_time_window(entries, minutes) {
            Ok(recent) => recent,
            Err(e) => {
                return Err(e);
            },
        };
        let kept = match self.deduplicate_entries(recent) {
            Ok(kept) => kept,
            Err(e) => {
                return Err(e);
            },
        };
        Ok(self.display_performance_results(&kept))
    }

    /// Keeps the entries of the last minutes. There must be an entry. It is a
    /// failure where none is left.
    pub fn filter_entries_by_time_window(&self, entries: Vec<LogCommitEntry>, minutes: i64) -> (r:
        Result<Vec<LogCommitEntry>, CliError>)
        requires
            entries@.len() > 0,
        ensures
            match r {
                Ok(kept) => entry_views(kept@) == in_window(entry_views(entries@), minutes)
                    && kept@.len() > 0,
                Err(e) => in_window(entry_views(entries@), minutes).len() == 0 && e@
                    == nothing_found(),
            },
    {
        let ghost all = entry_views(entries@);
        let mut latest: i64 = i64::MIN;
        let mut i: usize = 0;
        assert(all.take(0) =~= Seq::<LogCommitEntryView>::empty());
        while i < entries.len()
            invariant
                i <= entries.len(),
                all == entry_views(entries@),
                latest == latest_time(all.take(i as int)),
            decreases entries.len() - i,
        {
            let ghost next = all.take(i + 1);
            assert(next.drop_last() == all.take(i as int));
            assert(next.last() == entries@[i as int]@);
            if entries[i].timestamp > latest {
                latest = entries[i].timestamp;
            }
            i += 1;
        }
        assert(all.take(entries.len() as int) == all);
        let start: i128 = (latest as i128) - (minutes as i128) * 60;
        let mut kept: Vec<LogCommitEntry> = Vec::new();
        let mut j: usize = 0;
        assert(entry_views(kept@) =~= seq![]);
        while j < entries.len()
            invariant
                j <= entries.len(),
                all == entry_views(entries@),
                start == latest_time(all) - minutes * 60,
                entry_views(kept@) == since(all.take(j as int), start as int),
            decreases entries.len() - j,
        {
            let ghost next = all.take(j + 1);
            assert(next.drop_last() == all.take(j as int));
            assert(next.last() == entries@[j as int]@);
            if (entries[j].timestamp as i128) >= start {
                let ghost before = entry_views(kept@);
                kept.push(entries[j].clone());
                assert(entry_views(kept@) =~= before.push(entries@[j as int]@));
            }
            j += 1;
        }
        if kept.len() == 0 {
            return Err(
                CliError::ToolExecutionFailed(
                    "No matching commit entries found in FE logs".to_owned(),
                ),
            );
        }
        Ok(kept)
    }

    /// Keeps each commit once. It is a failure where there is no entry.
    pub fn deduplicate_entries(&self, entries: Vec<LogCommitEntry>) -> (r: Result<
        Vec<LogCommitEntry>,
        CliError,
    >)
        ensures
            match r {
                Ok(kept) => entry_views(kept@) == deduplicated(entry_views(entries@)) && kept@.len()
                    > 0,
                Err(e) => deduplicated(entry_views(entries@)).len() == 0 && e@ == nothing_found(),
            },
    {
        let ghost all = entry_views(entries@);
        let mut kept: Vec<LogCommitEntry> = Vec::new();
        let mut i: usize = 0;
        assert(all.take(0) =~= Seq::<LogCommitEntryView>::empty());
        assert(entry_views(kept@) =~= seq![]);
        while i < entries.len()
            invariant
                i <= entries.len(),
                all == entry_views(entries@),
                entry_views(kept@) == deduplicated(all.take(i as int)),
            decreases entries.len() - i,
        {
            let ghost next = all.take(i + 1);
            assert(next.drop_last() == all.take(i as int));
            assert(next.last() == entries@[i as int]@);
            let e = &entries[i];
            let ghost held = entry_views(kept@);
            let mut p: usize = 0;
            while p < kept.len() && !RoutineLoadPerformanceAnalyzer::is_same_commit(&kept[p], e)
                invariant
                    p <= kept.len(),
                    held == entry_views(kept@),
                    forall|k: int| 0 <= k < p ==> !same_commit(#[trigger] held[k], e@),
                decreases kept.len() - p,
            {
                assert(held[p as int] == kept@[p as int]@);
                p += 1;
            }
            proof {
                if p < kept.len() {
                    assert(held[p as int] == kept@[p as int]@);
                }
                lemma_with_commit_at(held, e@, p as int);
            }
            if p == kept.len() {
                kept.push(e.clone());
                assert(entry_views(kept@) =~= held.push(e@));
            } else if kept[p].transaction_id.is_none() && e.transaction_id.is_some() {
                kept.set(p, e.clone());
                assert(entry_views(kept@) =~= held.update(p as int, e@));
            }
            i += 1;
        }
        assert(all.take(entries.len() as int) == all);
        if kept.len() == 0 {
            return Err(
                CliError::ToolExecutionFailed(
                    "No matching commit entries found in FE logs".to_owned(),
                ),
            );
        }
        Ok(kept)
    }

    /// Whether two entries tell the same of a commit, but for its transaction.
    pub fn is_same_commit(a: &LogCommitEntry, b: &LogCommitEntry) -> (r: bool)
        ensures
            r == same_commit(a@, b@),
    {
        let rows_a = match a.loaded_rows {
            Some(n) => n,
            None => 0,
        };
        let rows_b = match b.loaded_rows {
            Some(n) => n,
            None => 0,
        };
        let bytes_a = match a.received_bytes {
            Some(n) => n,
            None => 0,
        };
        let bytes_b = match b.received_bytes {
            Some(n) => n,
            None => 0,
        };
        let ms_a = match a.task_execution_ms {
            Some(n) => n,
            None => 0,
        };
        let ms_b = match b.task_execution_ms {
            Some(n) => n,
            None => 0,
        };
        a.timestamp == b.timestamp && rows_a == rows_b && bytes_a == bytes_b && ms_a == ms_b
    }

    /// The line between the parts of a table whose columns have the given widths.
    pub fn separator(&self, widths: &Vec<usize>) -> (r: String)
        ensures
            r@ == separator_text(widths@),
    {
        let mut out = String::new();
        let mut i: usize = 0;
        assert(widths@.take(0) =~= Seq::<usize>::empty());
        while i < widths.len()
            invariant
                i <= widths.len(),
                out@ == separator_text(widths@.take(i as int)),
            decreases widths.len() - i,
        {
            let ghost next = widths@.take(i + 1);
            assert(next.drop_last() == widths@.take(i as int));
            assert(next.last() == widths@[i as int]);
            if i > 0 {
                out.append("+");
            }
            let dashes = repeat("-", widths[i]);
            proof {
                reveal_strlit("-");
                reveal_strlit("--");
                reveal_with_fuel(repeated, 3);
                assert(dashes@ + "--"@ =~= repeated("-"@, (widths@[i as int] + 2) as nat));
            }
            let ghost before = out@;
            out.append(dashes.as_str());
            out.append("--");
            assert(out@ =~= before + (dashes@ + "--"@));
            i += 1;
        }
        assert(widths@.take(widths.len() as int) == widths@);
        out
    }

    /// A row of the table: the first and the last cell stand left in their
    /// columns, the others right. There must be five cells and five widths.
    pub fn print_table(&self, cells: &Vec<String>, widths: &Vec<usize>) -> (r: String)
        requires
            cells@.len() == 5,
            widths@.len() == 5,
        ensures
            r@ == row_text(texts(cells@), widths@),
    {
        let c0 = pad_right(cells[0].as_str(), widths[0]);
        let c1 = pad_left(cells[1].as_str(), widths[1]);
        let c2 = pad_left(cells[2].as_str(), widths[2]);
        let c3 = pad_left(cells[3].as_str(), widths[3]);
        let c4 = pad_right(cells[4].as_str(), widths[4]);
        let a = concat3(" ", c0.as_str(), " | ");
        let b = concat3(a.as_str(), c1.as_str(), " | ");
        let c = concat3(b.as_str(), c2.as_str(), " | ");
        let d = concat3(c.as_str(), c3.as_str(), " | ");
        concat(d.as_str(), c4.as_str())
    }

    /// The commits in the order of their times.
    pub fn sort_by_time(&self, entries: &Vec<LogCommitEntry>) -> (r: Vec<LogCommitEntry>)
        ensures
            entry_views(r@) == by_time(entry_views(entries@)),
    {
        let ghost all = entry_views(entries@);
        let mut out: Vec<LogCommitEntry> = Vec::new();
        let mut i: usize = 0;
        assert(all.take(0) =~= Seq::<LogCommitEntryView>::empty());
        assert(entry_views(out@) =~= seq![]);
        while i < entries.len()
            invariant
                i <= entries.len(),
                all == entry_views(entries@),
                entry_views(out@) == by_time(all.take(i as int)),
            decreases entries.len() - i,
        {
            let ghost next = all.take(i + 1);
            assert(next.drop_last() == all.take(i as int));
            assert(next.last() == entries@[i as int]@);
            insert_entry(&mut out, entries[i].clone());
            i += 1;
        }
        assert(all.take(entries.len() as int) == all);
        out
    }

    /// What is shown of the commits of a job: a table with a row for each
    /// commit, in the order of their times, and the summary of them all.
    pub fn display_performance_results(&self, entries: &Vec<LogCommitEntry>) -> (r: Vec<String>)
        ensures
            texts(r@) == performance_lines(entry_views(entries@)),
    {
        let sorted = self.sort_by_time(entries);
        let ghost all = entry_views(sorted@);
        let mut widths = heading_widths();
        let mut rows: Vec<Vec<String>> = Vec::new();
        let mut stats = PerformanceStats::new();
        let mut i: usize = 0;
        assert(all.take(0) =~= Seq::<LogCommitEntryView>::empty());
        while i < sorted.len()
            invariant
                i <= sorted.len(),
                all == entry_views(sorted@),
                rows@.len() == i,
                forall|k: int| 0 <= k < i ==> texts((#[trigger] rows@[k])@) == commit_cells(all[k]),
                widths@.len() == 5,
                forall|c: int|
                    0 <= c < 5 ==> (#[trigger] widths@[c]) == column_width(all.take(i as int), c),
                stats == stats_of(all.take(i as int)),
                stats.well_formed(),
                stats.count == i,
            decreases sorted.len() - i,
        {
            let ghost next = all.take(i + 1);
            assert(next.drop_last() == all.take(i as int));
            assert(next.last() == sorted@[i as int]@);
            let ghost prev = all.take(i as int);
            let ghost last = sorted@[i as int]@;
            let cells = cells_of(&sorted[i]);
            let mut c: usize = 0;
            while c < 5
                invariant
                    c <= 5,
                    widths@.len() == 5,
                    cells@.len() == 5,
                    next.len() > 0,
                    next.drop_last() == prev,
                    next.last() == last,
                    texts(cells@) == commit_cells(last),
                    forall|d: int| 0 <= d < c ==> (#[trigger] widths@[d]) == column_width(next, d),
                    forall|d: int| c <= d < 5 ==> (#[trigger] widths@[d]) == column_width(prev, d),
                decreases 5 - c,
            {
                let n = byte_len(cells[c].as_str());
                assert(texts(cells@)[c as int] == cells@[c as int]@);
                if n > widths[c] {
                    widths[c] = n;
                }
                c += 1;
            }
            rows.push(cells);
            stats.update(&sorted[i]);
            i += 1;
        }
        assert(all.take(sorted.len() as int) == all);
        assert(widths@ =~= column_widths(all));
        let line = self.separator(&widths);
        let mut lines: Vec<String> = Vec::new();
        lines.push("\nPer-commit stats".to_owned());
        lines.push(line.clone());
        lines.push(self.print_table(&headings_of(), &widths));
        lines.push(line.clone());
        let mut j: usize = 0;
        while j < rows.len()
            invariant
                j <= rows.len(),
                rows@.len() == all.len(),
                widths@.len() == 5,
                forall|k: int|
                    0 <= k < rows@.len() ==> texts((#[trigger] rows@[k])@) == commit_cells(all[k]),
                lines@.len() == 4 + j,
                texts(lines@).take(4) == table_head(widths@),
                forall|k: int|
                    4 <= k < 4 + j ==> (#[trigger] lines@[k])@ == row_text(
                        commit_cells(all[k - 4]),
                        widths@,
                    ),
            decreases rows.len() - j,
        {
            let ghost before = texts(lines@);
            assert(texts(rows@[j as int]@).len() == 5);
            lines.push(self.print_table(&rows[j], &widths));
            assert(texts(lines@).take(4) =~= before.take(4));
            j += 1;
        }
        lines.push(line);
        let summary = stats.display_summary();
        let ghost table = texts(lines@);
        let mut k: usize = 0;
        while k < summary.len()
            invariant
                k <= summary.len(),
                texts(lines@) == table + texts(summary@).take(k as int),
            decreases summary.len() - k,
        {
            let ghost before = texts(lines@);
            lines.push(summary[k].clone());
            assert(texts(lines@) =~= before.push(summary@[k as int]@));
            assert(texts(summary@).take(k + 1) =~= texts(summary@).take(k as int).push(
                summary@[k as int]@,
            ));
            k += 1;
        }
        assert(texts(summary@).take(summary.len() as int) == texts(summary@));
        proof {
            let rows_part = Seq::new(all.len(), |i: int| row_text(commit_cells(all[i]), widths@));
            let want = table_head(widths@) + rows_part + seq![separator_text(widths@)];
            assert(table.len() == want.len());
            assert forall|n: int| 0 <= n < table.len() implies table[n] == want[n] by {
                if n < 4 {
                    assert(table[n] == table.take(4)[n]);
                } else if n < 4 + all.len() {
                    assert(want[n] == rows_part[n - 4]);
                }
            }
            assert(table =~= want);
        }
        lines
    }
}

/// The widths of the headings of the table of commits.
fn heading_widths() -> (r: Vec<usize>)
    ensures
        r@.len() == 5,
        forall|c: int| 0 <= c < 5 ==> (#[trigger] r@[c]) == encode_utf8(headings()[c]).len(),
{
    let heads = headings_of();
    let mut widths: Vec<usize> = Vec::new();
    let mut c: usize = 0;
    while c < 5
        invariant
            c <= 5,
            heads@.len() == 5,
            texts(heads@) == headings(),
            widths@.len() == c,
            forall|d: int| 0 <= d < c ==> (#[trigger] widths@[d]) == encode_utf8(headings()[d]).len(),
        decreases 5 - c,
    {
        assert(texts(heads@)[c as int] == heads@[c as int]@);
        widths.push(byte_len(heads[c].as_str()));
        c += 1;
    }
    widths
}

/// The headings of the table of commits.
fn headings_of() -> (r: Vec<String>)
    ensures
        texts(r@) == headings(),
        r@.len() == 5,
{
    let mut heads: Vec<String> = Vec::new();
    heads.push("Time".to_owned());
    heads.push("ms".to_owned());
    heads.push("loadedRows".to_owned());
    heads.push("receivedBytes".to_owned());
    heads.push("txnId".to_owned());
    assert(texts(heads@) =~= headings());
    heads
}

/// The time of day of an instant, as it is written: hours, minutes and seconds.
pub fn clock(secs: i64) -> (r: String)
    ensures
        r@ == clock_text(secs),
{
    let second = second_of_day(secs);
    let minute = minute_label((second / 60) as u16);
    concat3(minute.as_str(), ":", pad_two(second % 60).as_str())
}

/// The cells of the row of a commit.
fn cells_of(entry: &LogCommitEntry) -> (r: Vec<String>)
    ensures
        texts(r@) == commit_cells(entry@),
        r@.len() == 5,
{
    let mut cells: Vec<String> = Vec::new();
    cells.push(clock(entry.timestamp));
    cells.push(
        u64_to_string(
            match entry.task_execution_ms {
                Some(n) => n,
                None => 0,
            },
        ),
    );
    cells.push(
        FormatHelper::fmt_int(
            match entry.loaded_rows {
                Some(n) => n,
                None => 0,
            },
        ),
    );
    cells.push(
        FormatHelper::fmt_int(
            match entry.received_bytes {
                Some(n) => n,
                None => 0,
            },
        ),
    );
    cells.push(
        match &entry.transaction_id {
            Some(t) => t.clone(),
            None => "-".to_owned(),
        },
    );
    assert(texts(cells@) =~= commit_cells(entry@));
    cells
}

/// Puts a commit into a list of commits that is in the order of their times.
fn insert_entry(entries: &mut Vec<LogCommitEntry>, entry: LogCommitEntry)
    ensures
        entry_views(final(entries)@) == with_entry(entry_views(old(entries)@), entry@),
{
    let ghost held = entry_views(entries@);
    let mut p: usize = 0;
    while p < entries.len() && entries[p].timestamp <= entry.timestamp
        invariant
            p <= entries.len(),
            entries@ == old(entries)@,
            held == entry_views(entries@),
            forall|k: int| 0 <= k < p ==> (#[trigger] held[k]).timestamp <= entry.timestamp,
        decreases entries.len() - p,
    {
        assert(held[p as int] == entries@[p as int]@);
        p += 1;
    }
    proof {
        if p < entries.len() {
            assert(held[p as int] == entries@[p as int]@);
        }
        lemma_with_entry_at(held, entry@, p as int);
    }
    let ghost added = entry@;
    entries.insert(p, entry);
    assert(entry_views(entries@) =~= held.take(p as int) + seq![added] + held.skip(p as int));
}

/// A list of commits in the order of their times, with one more commit put in:
/// behind every commit that is not later than it.
pub open spec fn with_entry(sorted: Seq<LogCommitEntryView>, entry: LogCommitEntryView) -> Seq<
    LogCommitEntryView,
>
    decreases sorted.len(),
{
    if sorted.len() == 0 {
        seq![entry]
    } else if sorted[0].timestamp > entry.timestamp {
        seq![entry] + sorted
    } else {
        seq![sorted[0]] + with_entry(sorted.drop_first(), entry)
    }
}

/// The commits in the order of their times; commits of one time keep the order
/// in which they stood.
pub open spec fn by_time(entries: Seq<LogCommitEntryView>) -> Seq<LogCommitEntryView>
    decreases entries.len(),
{
    if entries.len() == 0 {
        seq![]
    } else {
        with_entry(by_time(entries.drop_last()), entries.last())
    }
}

/// Putting a commit into a list leaves what stands before its place and what
/// stands behind it.
proof fn lemma_with_entry_at(sorted: Seq<LogCommitEntryView>, entry: LogCommitEntryView, p: int)
    requires
        0 <= p <= sorted.len(),
        forall|k: int| 0 <= k < p ==> (#[trigger] sorted[k]).timestamp <= entry.timestamp,
        p < sorted.len() ==> sorted[p].timestamp > entry.timestamp,
    ensures
        with_entry(sorted, entry) == sorted.take(p) + seq![entry] + sorted.skip(p),
    decreases sorted.len(),
{
    if sorted.len() == 0 {
        assert(sorted.take(p) + seq![entry] + sorted.skip(p) =~= seq![entry]);
    } else if p == 0 {
        assert(sorted.take(0) + seq![entry] + sorted.skip(0) =~= seq![entry] + sorted);
    } else {
        let rest = sorted.drop_first();
        assert(sorted[0].timestamp <= entry.timestamp);
        assert forall|k: int| 0 <= k < p - 1 implies (#[trigger] rest[k]).timestamp
            <= entry.timestamp by {
            assert(rest[k] == sorted[k + 1]);
        }
        lemma_with_entry_at(rest, entry, p - 1);
        assert(seq![sorted[0]] + (rest.take(p - 1) + seq![entry] + rest.skip(p - 1))
            =~= sorted.take(p) + seq![entry] + sorted.skip(p));
    }
}

/// The time of day of an instant, as it is written: hours, minutes and seconds,
/// two digits each.
pub open spec fn clock_text(secs: i64) -> Seq<char> {
    let second = (secs as int) % 86400;
    minute_text(second / 60) + ":"@ + two_digits(second % 60)
}

/// The headings of the table of commits.
pub open spec fn headings() -> Seq<Seq<char>> {
    seq!["Time"@, "ms"@, "loadedRows"@, "receivedBytes"@, "txnId"@]
}

/// The cells of the row of a commit: its time of day, the milliseconds it took,
/// the rows and the bytes it loaded, and its transaction, or a dash.
pub open spec fn commit_cells(entry: LogCommitEntryView) -> Seq<Seq<char>> {
    seq![
        clock_text(entry.timestamp),
        decimal_text(figure(entry.task_execution_ms) as nat),
        grouped(decimal_text(figure(entry.loaded_rows) as nat)),
        grouped(decimal_text(figure(entry.received_bytes) as nat)),
        match entry.transaction_id {
            Some(t) => t,
            None => "-"@,
        },
    ]
}

/// The width of a column of the table of commits: the bytes of the longest of
/// its heading and its cells.
pub open spec fn column_width(entries: Seq<LogCommitEntryView>, column: int) -> nat
    decreases entries.len(),
{
    if entries.len() == 0 {
        encode_utf8(headings()[column]).len()
    } else {
        let before = column_width(entries.drop_last(), column);
        let cell = encode_utf8(commit_cells(entries.last())[column]).len();
        if cell > before {
            cell
        } else {
            before
        }
    }
}

/// The widths of the five columns of the table of commits.
pub open spec fn column_widths(entries: Seq<LogCommitEntryView>) -> Seq<usize> {
    Seq::new(5, |c: int| column_width(entries, c) as usize)
}

/// The summary of a list of commits.
pub open spec fn stats_of(entries: Seq<LogCommitEntryView>) -> PerformanceStats
    decreases entries.len(),
{
    if entries.len() == 0 {
        no_stats()
    } else {
        stats_with(stats_of(entries.drop_last()), entries.last())
    }
}

/// The head of the table of commits: its title, and its headings between two
/// lines.
pub open spec fn table_head(widths: Seq<usize>) -> Seq<Seq<char>> {
    seq![
        "\nPer-commit stats"@,
        separator_text(widths),
        row_text(headings(), widths),
        separator_text(widths),
    ]
}

/// What is shown of the commits of a job: the table of the commits in the order
/// of their times, each column as wide as its longest cell, and the summary.
pub open spec fn performance_lines(entries: Seq<LogCommitEntryView>) -> Seq<Seq<char>> {
    let sorted = by_time(entries);
    let widths = column_widths(sorted);
    table_head(widths) + Seq::new(
        sorted.len(),
        |i: int| row_text(commit_cells(sorted[i]), widths),
    ) + seq![separator_text(widths)] + summary_lines(stats_of(sorted))
}

/// The line between the parts of a table: for each column two dashes more
/// than its width, and a plus sign between columns.
pub open spec fn separator_text(widths: Seq<usize>) -> Seq<char>
    decreases widths.len(),
{
    if widths.len() == 0 {
        seq![]
    } else {
        separator_text(widths.drop_last()) + (if widths.len() > 1 {
            "+"@
        } else {
            seq![]
        }) + repeated("-"@, (widths.last() + 2) as nat)
    }
}

/// A row of the table of commits.
pub open spec fn row_text(cells: Seq<Seq<char>>, widths: Seq<usize>) -> Seq<char> {
    " "@ + padded_right(cells[0], widths[0] as nat) + " | "@ + padded_left(
        cells[1],
        widths[1] as nat,
    ) + " | "@ + padded_left(cells[2], widths[2] as nat) + " | "@ + padded_left(
        cells[3],
        widths[3] as nat,
    ) + " | "@ + padded_right(cells[4], widths[4] as nat)
}

} // verus!
