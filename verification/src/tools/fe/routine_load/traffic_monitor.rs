use crate::text::{
    concat, concat3, decimal_text, repeat, repeated, texts, u128_to_string, u64_to_string,
};
use crate::error::{CliError, ErrorView};
use crate::tools::fe::routine_load::log_parser::{
    entries_in, entry_views, file_texts, FeLogParser, LogCommitEntry, LogCommitEntryView,
};
use crate::tools::fe::routine_load::performance_analyzer::{
    in_window, RoutineLoadPerformanceAnalyzer,
};
use crate::tools::Tool;
use vstd::prelude::*;

verus! {

/// Sums up from the logs what the chosen job loaded in each minute.
#[derive(Debug, Clone, Copy, PartialEq, Eq, Structural)]
pub struct RoutineLoadTrafficMonitor;

impl Tool for RoutineLoadTrafficMonitor {
    open spec fn name_text(&self) -> Seq<char> {
        "routine_load_traffic_monitor"@
    }

    open spec fn description_text(&self) -> Seq<char> {
        "Aggregate per-minute loadedRows from FE logs"@
    }

    open spec fn needs_pid(&self) -> bool {
        false
    }

    fn name(&self) -> (r: String) {
        "routine_load_traffic_monitor".to_owned()
    }

    fn description(&self) -> (r: String) {
        "Aggregate per-minute loadedRows from FE logs".to_owned()
    }

    fn requires_pid(&self) -> (r: bool) {
        false
    }
}

/// The minute of the day in which an instant falls, from 0 to 1439.
pub open spec fn minute_of(secs: i64) -> int {
    ((secs as int) % 86400) / 60
}

/// The second of the day in which an instant falls.
pub fn second_of_day(secs: i64) -> (r: u32)
    ensures
        r == (secs as int) % 86400,
{
    if secs >= 0 {
        (secs % 86400) as u32
    } else {
        let k: i64 = -(secs + 1);
        let m: i64 = k % 86400;
        (86399 - m) as u32
    }
}

/// The minute of the day in which an instant falls.
pub fn minute_of_day(secs: i64) -> (r: u16)
    ensures
        r == minute_of(secs),
{
    (second_of_day(secs) / 60) as u16
}

/// A number below a hundred in two digits.
pub open spec fn two_digits(n: int) -> Seq<char> {
    decimal_text((n / 10) as nat) + decimal_text((n % 10) as nat)
}

/// A number below a hundred in two digits.
pub fn pad_two(n: u32) -> (r: String)
    requires
        n < 100,
    ensures
        r@ == two_digits(n as int),
{
    let tens = u64_to_string((n / 10) as u64);
    let ones = u64_to_string((n % 10) as u64);
    concat(tens.as_str(), ones.as_str())
}

/// A minute of the day as it is written: hours and minutes, two digits each.
pub open spec fn minute_text(minute: int) -> Seq<char> {
    two_digits(minute / 60) + ":"@ + two_digits(minute % 60)
}

/// A minute of the day as it is written.
pub fn minute_label(minute: u16) -> (r: String)
    requires
        minute < 1440,
    ensures
        r@ == minute_text(minute as int),
{
    let h = pad_two((minute / 60) as u32);
    let m = pad_two((minute % 60) as u32);
    concat3(h.as_str(), ":", m.as_str())
}

/// The rows that an entry loaded; an entry that does not tell loaded none.
pub open spec fn rows_of(entry: LogCommitEntryView) -> nat {
    match entry.loaded_rows {
        Some(n) => n as nat,
        None => 0,
    }
}

/// A list of minutes with their rows, minutes in order, with the rows of one
/// more entry counted in: in the minute of the entry where the list has it, else
/// in a new minute at its place.
pub open spec fn with_rows(per_minute: Seq<(u16, u128)>, minute: u16, rows: u64) -> Seq<
    (u16, u128),
>
    decreases per_minute.len(),
{
    if per_minute.len() == 0 {
        seq![(minute, rows as u128)]
    } else if per_minute[0].0 == minute {
        seq![(minute, (per_minute[0].1 + rows) as u128)] + per_minute.drop_first()
    } else if per_minute[0].0 > minute {
        seq![(minute, rows as u128)] + per_minute
    } else {
        seq![per_minute[0]] + with_rows(per_minute.drop_first(), minute, rows)
    }
}

/// What the entries loaded in each minute of the day in which one of them
/// falls, minutes in order.
pub open spec fn traffic_of(entries: Seq<LogCommitEntryView>) -> Seq<(u16, u128)>
    decreases entries.len(),
{
    if entries.len() == 0 {
        seq![]
    } else {
        with_rows(
            traffic_of(entries.drop_last()),
            minute_of(entries.last().timestamp) as u16,
            rows_of(entries.last()) as u64,
        )
    }
}

/// Counting rows into a list changes the list at one place only.
proof fn lemma_with_rows_at(per_minute: Seq<(u16, u128)>, minute: u16, rows: u64, p: int)
    requires
        0 <= p <= per_minute.len(),
        forall|k: int| 0 <= k < p ==> (#[trigger] per_minute[k]).0 < minute,
        p < per_minute.len() ==> per_minute[p].0 >= minute,
    ensures
        with_rows(per_minute, minute, rows) == if p < per_minute.len() && per_minute[p].0
            == minute {
            per_minute.update(p, (minute, (per_minute[p].1 + rows) as u128))
        } else {
            per_minute.take(p) + seq![(minute, rows as u128)] + per_minute.skip(p)
        },
    decreases per_minute.len(),
{
    if per_minute.len() == 0 {
        assert(per_minute.take(p) + seq![(minute, rows as u128)] + per_minute.skip(p) =~= seq![
            (minute, rows as u128),
        ]);
    } else if p == 0 {
        if per_minute[0].0 == minute {
            assert(seq![(minute, (per_minute[0].1 + rows) as u128)] + per_minute.drop_first()
                =~= per_minute.update(0, (minute, (per_minute[0].1 + rows) as u128)));
        } else {
            assert(per_minute.take(0) + seq![(minute, rows as u128)] + per_minute.skip(0) =~= seq![
                (minute, rows as u128),
            ] + per_minute);
        }
    } else {
        let rest = per_minute.drop_first();
        assert(per_minute[0].0 < minute);
        assert forall|k: int| 0 <= k < p - 1 implies (#[trigger] rest[k]).0 < minute by {
            assert(rest[k] == per_minute[k + 1]);
        }
        lemma_with_rows_at(rest, minute, rows, p - 1);
        if p < per_minute.len() && per_minute[p].0 == minute {
            assert(seq![per_minute[0]] + rest.update(
                p - 1,
                (minute, (rest[p - 1].1 + rows) as u128),
            ) =~= per_minute.update(p, (minute, (per_minute[p].1 + rows) as u128)));
        } else {
            assert(seq![per_minute[0]] + (rest.take(p - 1) + seq![(minute, rows as u128)]
                + rest.skip(p - 1)) =~= per_minute.take(p) + seq![(minute, rows as u128)]
                + per_minute.skip(p));
        }
    }
}

/// Whether no minute of a list holds more rows than `bound`, and every minute
/// is a minute of the day.
pub open spec fn within(per_minute: Seq<(u16, u128)>, bound: int) -> bool {
    forall|k: int|
        0 <= k < per_minute.len() ==> (#[trigger] per_minute[k]).1 <= bound && per_minute[k].0
            < 1440
}

impl RoutineLoadTrafficMonitor {
    /// Counts the rows of one more entry into a list of minutes.
    fn add_rows(per_minute: &mut Vec<(u16, u128)>, minute: u16, rows: u64, Ghost(bound): Ghost<int>)
        requires
            minute < 1440,
            within(old(per_minute)@, bound),
            0 <= bound,
            bound + 0xFFFF_FFFF_FFFF_FFFF <= u128::MAX,
        ensures
            final(per_minute)@ == with_rows(old(per_minute)@, minute, rows),
            within(final(per_minute)@, bound + 0xFFFF_FFFF_FFFF_FFFF),
            total_of(final(per_minute)@) == total_of(old(per_minute)@) + rows,
    {
        let mut p: usize = 0;
        while p < per_minute.len() && per_minute[p].0 < minute
            invariant
                p <= per_minute.len(),
                per_minute@ == old(per_minute)@,
                forall|k: int| 0 <= k < p ==> (#[trigger] per_minute@[k]).0 < minute,
            decreases per_minute.len() - p,
        {
            p += 1;
        }
        proof {
            lemma_with_rows_at(per_minute@, minute, rows, p as int);
        }
        let ghost held = per_minute@;
        if p < per_minute.len() && per_minute[p].0 == minute {
            let sum = per_minute[p].1 + (rows as u128);
            per_minute.set(p, (minute, sum));
            proof {
                lemma_total_parts(held, p as int);
                lemma_total_parts(per_minute@, p as int);
                assert(per_minute@.take(p as int) =~= held.take(p as int));
                assert(per_minute@.skip(p + 1) =~= held.skip(p + 1));
            }
            assert forall|k: int| 0 <= k < per_minute@.len() implies (#[trigger] per_minute@[k]).1
                <= bound + 0xFFFF_FFFF_FFFF_FFFF && per_minute@[k].0 < 1440 by {
                if k != p {
                    assert(per_minute@[k] == held[k]);
                }
            }
        } else {
            per_minute.insert(p, (minute, rows as u128));
            assert(per_minute@ =~= held.take(p as int) + seq![(minute, rows as u128)] + held.skip(
                p as int,
            ));
            proof {
                lemma_total_parts(per_minute@, p as int);
                assert(per_minute@.take(p as int) =~= held.take(p as int));
                assert(per_minute@.skip(p + 1) =~= held.skip(p as int));
                lemma_total_sum(held.take(p as int), held.skip(p as int));
                assert(held.take(p as int) + held.skip(p as int) =~= held);
            }
            assert forall|k: int| 0 <= k < per_minute@.len() implies (#[trigger] per_minute@[k]).1
                <= bound + 0xFFFF_FFFF_FFFF_FFFF && per_minute@[k].0 < 1440 by {
                if k < p {
                    assert(per_minute@[k] == held[k]);
                } else if k > p {
                    assert(per_minute@[k] == held[k - 1]);
                }
            }
        }
    }

    /// Sums up what the entries loaded in each minute of the day.
    pub fn aggregate_per_minute(&self, entries: &Vec<LogCommitEntry>) -> (r: Vec<(u16, u128)>)
        ensures
            r@ == traffic_of(entry_views(entries@)),
            within(r@, (entries@.len() * 0xFFFF_FFFF_FFFF_FFFF) as int),
            total_of(r@) <= entries@.len() * 0xFFFF_FFFF_FFFF_FFFF,
    {
        let mut per_minute: Vec<(u16, u128)> = Vec::new();
        let ghost all = entry_views(entries@);
        let mut i: usize = 0;
        assert(all.take(0) =~= Seq::<LogCommitEntryView>::empty());
        while i < entries.len()
            invariant
                i <= entries.len(),
                all == entry_views(entries@),
                per_minute@ == traffic_of(all.take(i as int)),
                within(per_minute@, (i * 0xFFFF_FFFF_FFFF_FFFF) as int),
                total_of(per_minute@) <= i * 0xFFFF_FFFF_FFFF_FFFF,
            decreases entries.len() - i,
        {
            let ghost next = all.take(i + 1);
            assert(next.drop_last() == all.take(i as int));
            assert(next.last() == entries@[i as int]@);
            let rows: u64 = match entries[i].loaded_rows {
                Some(n) => n,
                None => 0,
            };
            let minute = minute_of_day(entries[i].timestamp);
            proof {
                assert(i * 0xFFFF_FFFF_FFFF_FFFF + 0xFFFF_FFFF_FFFF_FFFF <= u128::MAX)
                    by (nonlinear_arith)
                    requires
                        i <= 0xFFFF_FFFF_FFFF_FFFF,
                ;
                assert((i + 1) * 0xFFFF_FFFF_FFFF_FFFF == i * 0xFFFF_FFFF_FFFF_FFFF
                    + 0xFFFF_FFFF_FFFF_FFFF) by (nonlinear_arith);
            }
            RoutineLoadTrafficMonitor::add_rows(
                &mut per_minute,
                minute,
                rows,
                Ghost((i * 0xFFFF_FFFF_FFFF_FFFF) as int),
            );
            i += 1;
        }
        assert(all.take(entries.len() as int) == all);
        per_minute
    }

    /// What the logs tell of the commits of a job. It is a failure where they
    /// tell of none.
    pub fn collect_and_parse_logs(&self, files: &Vec<Vec<String>>, job_id: &str) -> (r: Result<
        Vec<LogCommitEntry>,
        CliError,
    >)
        ensures
            match r {
                Ok(found) => entry_views(found@) == entries_in(file_texts(files@), job_id@)
                    && found@.len() > 0,
                Err(e) => entries_in(file_texts(files@), job_id@).len() == 0 && e@
                    == ErrorView::ToolExecutionFailed("No matching entries found"@),
            },
    {
        let entries = FeLogParser::new().scan_files(files, job_id);
        if entries.len() == 0 {
            return Err(CliError::ToolExecutionFailed("No matching entries found".to_owned()));
        }
        Ok(entries)
    }

    /// Keeps the entries of the last minutes. There must be an entry. It is a
    /// failure where none is left.
    pub fn filter_entries_by_time_window(&self, entries: Vec<LogCommitEntry>, minutes: i64) -> (r:
        Result<Vec<LogCommitEntry>, CliError>)
        requires
            entries@.len() > 0,
        ensures
            match r {
                Ok(kept) => entry_views(kept@) == in_window(entry_views(entries@), minutes)
                    && kept@.len() > 0,
                Err(e) => in_window(entry_views(entries@), minutes).len() == 0 && e@
                    == ErrorView::ToolExecutionFailed("No entries in selected window"@),
            },
    {
        match RoutineLoadPerformanceAnalyzer.filter_entries_by_time_window(entries, minutes) {
            Ok(kept) => Ok(kept),
            Err(_) => Err(CliError::ToolExecutionFailed("No entries in selected window".to_owned())),
        }
    }

    /// The traffic of a job by the logs of the coordination role: what is shown
    /// of the rows that the commits of the last minutes loaded, minute by minute.
    pub fn execute(&self, files: &Vec<Vec<String>>, job_id: &str, minutes: i64) -> (r: Result<
        Vec<String>,
        CliError,
    >)
        ensures
            match traffic_shown(file_texts(files@), job_id@, minutes) {
                Ok(lines) => r is Ok && texts(r->Ok_0@) == lines,
                Err(e) => r is Err && r->Err_0@ == e,
            },
    {
        let entries = match self.collect_and_parse_logs(files, job_id) {
            Ok(entries) => entries,
            Err(e) => {
                return Err(e);
            },
        };
        let recent = match self.filter_entries_by_time_window(entries, minutes) {
            Ok(recent) => recent,
            Err(e) => {
                return Err(e);
            },
        };
        let per_minute = self.aggregate_per_minute(&recent);
        proof {
            assert(recent@.len() * 0xFFFF_FFFF_FFFF_FFFF <= u128::MAX) by (nonlinear_arith)
                requires
                    recent@.len() <= 0xFFFF_FFFF_FFFF_FFFF,
            ;
        }
        Ok(self.display_traffic_results(&per_minute))
    }

    /// The lines that show the traffic of each minute, and the totals.
    pub fn display_traffic_results(&self, per_minute_data: &Vec<(u16, u128)>) -> (r: Vec<String>)
        requires
            forall|k: int| 0 <= k < per_minute_data@.len() ==> (#[trigger] per_minute_data@[k]).0
                < 1440,
            total_of(per_minute_data@) <= u128::MAX,
        ensures
            texts(r@) == traffic_lines(per_minute_data@),
    {
        let mut lines: Vec<String> = Vec::new();
        lines.push(String::new());
        lines.push("Per-minute loadedRows (ascending time)".to_owned());
        lines.push(repeat("-", 40));
        let mut total: u128 = 0;
        let mut i: usize = 0;
        let ghost head = seq![
            Seq::<char>::empty(),
            "Per-minute loadedRows (ascending time)"@,
            repeated("-"@, 40),
        ];
        assert(per_minute_data@.take(0) =~= Seq::<(u16, u128)>::empty());
        assert(texts(lines@) =~= head + minute_lines(per_minute_data@.take(0)));
        while i < per_minute_data.len()
            invariant
                i <= per_minute_data.len(),
                head == seq![
                    Seq::<char>::empty(),
                    "Per-minute loadedRows (ascending time)"@,
                    repeated("-"@, 40),
                ],
                forall|k: int|
                    0 <= k < per_minute_data@.len() ==> (#[trigger] per_minute_data@[k]).0 < 1440,
                total_of(per_minute_data@) <= u128::MAX,
                total == total_of(per_minute_data@.take(i as int)),
                texts(lines@) == head + minute_lines(per_minute_data@.take(i as int)),
            decreases per_minute_data.len() - i,
        {
            let ghost next = per_minute_data@.take(i + 1);
            assert(next.drop_last() == per_minute_data@.take(i as int));
            assert(next.last() == per_minute_data@[i as int]);
            proof {
                lemma_total_prefix(per_minute_data@, i + 1);
            }
            let label = minute_label(per_minute_data[i].0);
            let rows = u128_to_string(per_minute_data[i].1);
            let ghost before = texts(lines@);
            let line = concat3(label.as_str(), " loadedRows=", rows.as_str());
            let ghost added = line@;
            lines.push(line);
            assert(texts(lines@) =~= before.push(added));
            assert(minute_lines(next) =~= minute_lines(per_minute_data@.take(i as int)).push(added));
            total = total + per_minute_data[i].1;
            i += 1;
        }
        assert(per_minute_data@.take(per_minute_data.len() as int) == per_minute_data@);
        let ghost body = texts(lines@);
        lines.push(repeat("-", 40));
        let count = u64_to_string(per_minute_data.len() as u64);
        lines.push(concat("Total minutes: ", count.as_str()));
        let sum = u128_to_string(total);
        lines.push(concat("Total loadedRows: ", sum.as_str()));
        let average: u128 = if per_minute_data.len() > 0 {
            total / (per_minute_data.len() as u128)
        } else {
            0
        };
        let avg = u128_to_string(average);
        lines.push(concat("Average per minute: ", avg.as_str()));
        assert(texts(lines@) =~= traffic_lines(per_minute_data@));
        lines
    }
}

/// The line of each minute of a list.
pub open spec fn minute_lines(per_minute: Seq<(u16, u128)>) -> Seq<Seq<char>> {
    Seq::new(
        per_minute.len(),
        |k: int|
            minute_text(per_minute[k].0 as int) + " loadedRows="@ + decimal_text(
                per_minute[k].1 as nat,
            ),
    )
}

/// The lines that show the traffic of each minute, and the totals.
pub open spec fn traffic_lines(per_minute: Seq<(u16, u128)>) -> Seq<Seq<char>> {
    seq![
        Seq::<char>::empty(),
        "Per-minute loadedRows (ascending time)"@,
        repeated("-"@, 40),
    ] + minute_lines(per_minute) + seq![
        repeated("-"@, 40),
        "Total minutes: "@ + decimal_text(per_minute.len()),
        "Total loadedRows: "@ + decimal_text(total_of(per_minute)),
        "Average per minute: "@ + decimal_text(average_of(per_minute)),
    ]
}

/// The rows of all minutes of a list.
pub open spec fn total_of(per_minute: Seq<(u16, u128)>) -> nat
    decreases per_minute.len(),
{
    if per_minute.len() == 0 {
        0
    } else {
        total_of(per_minute.drop_last()) + per_minute.last().1 as nat
    }
}

/// The rows of a minute on the average, rounded down; zero where there is no minute.
pub open spec fn average_of(per_minute: Seq<(u16, u128)>) -> nat {
    if per_minute.len() > 0 {
        total_of(per_minute) / per_minute.len()
    } else {
        0
    }
}

/// The rows of two lists in a row are those of the one and those of the other.
proof fn lemma_total_sum(a: Seq<(u16, u128)>, b: Seq<(u16, u128)>)
    ensures
        total_of(a + b) == total_of(a) + total_of(b),
    decreases b.len(),
{
    if b.len() == 0 {
        assert(a + b =~= a);
    } else {
        lemma_total_sum(a, b.drop_last());
        assert((a + b).drop_last() =~= a + b.drop_last());
    }
}

/// The rows of a list are those before a place, those at it and those behind it.
proof fn lemma_total_parts(s: Seq<(u16, u128)>, p: int)
    requires
        0 <= p < s.len(),
    ensures
        total_of(s) == total_of(s.take(p)) + s[p].1 + total_of(s.skip(p + 1)),
{
    let one = seq![s[p]];
    assert(one.drop_last() =~= Seq::<(u16, u128)>::empty());
    assert(total_of(one) == s[p].1) by {
        reveal_with_fuel(total_of, 2);
    }
    lemma_total_sum(s.take(p), one);
    lemma_total_sum(s.take(p) + one, s.skip(p + 1));
    assert(s.take(p) + one + s.skip(p + 1) =~= s);
}

/// What is shown of the traffic of a job: the rows that the commits of the last
/// minutes loaded, minute by minute. It is a failure where the logs tell nothing
/// of the job, or nothing in those minutes.
pub open spec fn traffic_shown(files: Seq<Seq<Seq<char>>>, job_id: Seq<char>, minutes: i64) -> Result<
    Seq<Seq<char>>,
    ErrorView,
> {
    let entries = entries_in(files, job_id);
    if entries.len() == 0 {
        Err(ErrorView::ToolExecutionFailed("No matching entries found"@))
    } else if in_window(entries, minutes).len() == 0 {
        Err(ErrorView::ToolExecutionFailed("No entries in selected window"@))
    } else {
        Ok(traffic_lines(traffic_of(in_window(entries, minutes))))
    }
}

/// The rows of the first minutes of a list are no more than those of all.
proof fn lemma_total_prefix(per_minute: Seq<(u16, u128)>, n: int)
    requires
        0 <= n <= per_minute.len(),
    ensures
        total_of(per_minute.take(n)) <= total_of(per_minute),
    decreases per_minute.len() - n,
{
    if n < per_minute.len() {
        lemma_total_prefix(per_minute, n + 1);
        assert(per_minute.take(n + 1).drop_last() == per_minute.take(n));
    } else {
        assert(per_minute.take(n) == per_minute);
    }
}

} // verus!
