use crate::error::{CliError, ErrorView};
use crate::text::{
    clone_opt, concat, concat3, contains, decimal_text, has_substring, i64_to_string, join_path, opt_text, pad_left,
    padded_left, path_join, repeat, repeated, same_text, signed_text, texts, u64_to_string,
};
use crate::tools::fe::routine_load::job_manager::{
    latest_jobs, parsed_jobs, RoutineLoadJobManager,
};
use crate::tools::fe::routine_load::models::{
    job_views, RoutineLoadJob, RoutineLoadJobView, RoutineLoadStateView,
};
use crate::tools::json::{number_pairs, text_pairs};
use crate::tools::mysql::parser::blocks_of;
use crate::tools::Tool;
use vstd::prelude::*;

verus! {

/// Lists the routine load jobs of a database and lets the operator choose one.
#[derive(Debug, Clone, Copy, PartialEq, Eq, Structural)]
pub struct RoutineLoadJobLister;

impl Tool for RoutineLoadJobLister {
    open spec fn name_text(&self) -> Seq<char> {
        "routine_load_job_lister"@
    }

    open spec fn description_text(&self) -> Seq<char> {
        "List and select Routine Load jobs"@
    }

    open spec fn needs_pid(&self) -> bool {
        false
    }

    fn name(&self) -> (r: String) {
        "routine_load_job_lister".to_owned()
    }

    fn description(&self) -> (r: String) {
        "List and select Routine Load jobs".to_owned()
    }

    fn requires_pid(&self) -> (r: bool) {
        false
    }
}

/// A partition of the source of a job: its name, how far the job has read it,
/// and how far the job is behind.
#[derive(Debug)]
pub struct LagRow {
    pub partition: String,
    pub progress: Option<String>,
    pub lag: i64,
}

/// What a `LagRow` holds, as plain values.
pub struct LagRowView {
    pub partition: Seq<char>,
    pub progress: Option<Seq<char>>,
    pub lag: i64,
}

impl View for LagRow {
    type V = LagRowView;

    open spec fn view(&self) -> LagRowView {
        LagRowView { partition: self.partition@, progress: opt_text(self.progress), lag: self.lag }
    }
}

impl Clone for LagRow {
    fn clone(&self) -> (r: LagRow)
        ensures
            r@ == self@,
    {
        LagRow {
            partition: self.partition.clone(),
            progress: clone_opt(&self.progress),
            lag: self.lag,
        }
    }
}

/// What a vector of rows holds.
pub open spec fn lag_rows(v: Seq<LagRow>) -> Seq<LagRowView> {
    Seq::new(v.len(), |i: int| v[i]@)
}

/// The progress of a partition in a list of pairs: that of the first pair with
/// its name.
pub open spec fn progress_at(pairs: Seq<(Seq<char>, Seq<char>)>, key: Seq<char>) -> Option<
    Seq<char>,
>
    decreases pairs.len(),
{
    if pairs.len() == 0 {
        None
    } else if pairs[0].0 == key {
        Some(pairs[0].1)
    } else {
        progress_at(pairs.drop_first(), key)
    }
}

/// The lag of a partition in a list of pairs.
pub open spec fn lag_at(pairs: Seq<(Seq<char>, i64)>, key: Seq<char>) -> Option<i64>
    decreases pairs.len(),
{
    if pairs.len() == 0 {
        None
    } else if pairs[0].0 == key {
        Some(pairs[0].1)
    } else {
        lag_at(pairs.drop_first(), key)
    }
}

/// The row of a partition.
pub open spec fn row_of(
    key: Seq<char>,
    progress: Seq<(Seq<char>, Seq<char>)>,
    lag: Seq<(Seq<char>, i64)>,
) -> LagRowView {
    LagRowView {
        partition: key,
        progress: progress_at(progress, key),
        lag: match lag_at(lag, key) {
            Some(n) => n,
            None => 0,
        },
    }
}

/// A list of rows, greatest lag first, with one more row put in: behind every
/// row whose lag is not less than its own.
pub open spec fn with_row(sorted: Seq<LagRowView>, row: LagRowView) -> Seq<LagRowView>
    decreases sorted.len(),
{
    if sorted.len() == 0 {
        seq![row]
    } else if sorted[0].lag < row.lag {
        seq![row] + sorted
    } else {
        seq![sorted[0]] + with_row(sorted.drop_first(), row)
    }
}

/// The rows of the partitions that the progress names, greatest lag first.
pub open spec fn rows_of_progress(
    keys: Seq<(Seq<char>, Seq<char>)>,
    progress: Seq<(Seq<char>, Seq<char>)>,
    lag: Seq<(Seq<char>, i64)>,
) -> Seq<LagRowView>
    decreases keys.len(),
{
    if keys.len() == 0 {
        seq![]
    } else {
        with_row(
            rows_of_progress(keys.drop_last(), progress, lag),
            row_of(keys.last().0, progress, lag),
        )
    }
}

/// The rows of all partitions, greatest lag first: those that the progress
/// names, and then those that only the lag names.
pub open spec fn rows_of_both(
    keys: Seq<(Seq<char>, i64)>,
    progress: Seq<(Seq<char>, Seq<char>)>,
    lag: Seq<(Seq<char>, i64)>,
) -> Seq<LagRowView>
    decreases keys.len(),
{
    if keys.len() == 0 {
        rows_of_progress(progress, progress, lag)
    } else if progress_at(progress, keys.last().0) is Some {
        rows_of_both(keys.drop_last(), progress, lag)
    } else {
        with_row(rows_of_both(keys.drop_last(), progress, lag), row_of(keys.last().0, progress, lag))
    }
}

/// Putting a row into a list leaves what stands before the place of the row.
proof fn lemma_with_row_at(sorted: Seq<LagRowView>, row: LagRowView, p: int)
    requires
        0 <= p <= sorted.len(),
        forall|k: int| 0 <= k < p ==> (#[trigger] sorted[k]).lag >= row.lag,
        p < sorted.len() ==> sorted[p].lag < row.lag,
    ensures
        with_row(sorted, row) == sorted.take(p) + seq![row] + sorted.skip(p),
    decreases sorted.len(),
{
    if sorted.len() == 0 {
        assert(sorted.take(p) + seq![row] + sorted.skip(p) =~= seq![row]);
    } else if p == 0 {
        assert(sorted.take(0) + seq![row] + sorted.skip(0) =~= seq![row] + sorted);
    } else {
        let rest = sorted.drop_first();
        assert(sorted[0].lag >= row.lag);
        assert forall|k: int| 0 <= k < p - 1 implies (#[trigger] rest[k]).lag >= row.lag by {
            assert(rest[k] == sorted[k + 1]);
        }
        lemma_with_row_at(rest, row, p - 1);
        assert(seq![sorted[0]] + (rest.take(p - 1) + seq![row] + rest.skip(p - 1)) =~= sorted.take(
            p,
        ) + seq![row] + sorted.skip(p));
    }
}

/// The progress of a partition.
fn find_progress(pairs: &Vec<(String, String)>, key: &str) -> (r: Option<String>)
    ensures
        opt_text(r) == progress_at(text_pairs(pairs@), key@),
{
    let ghost all = text_pairs(pairs@);
    let mut i: usize = 0;
    assert(all.skip(0) == all);
    while i < pairs.len()
        invariant
            i <= pairs.len(),
            all == text_pairs(pairs@),
            progress_at(all, key@) == progress_at(all.skip(i as int), key@),
        decreases pairs.len() - i,
    {
        assert(all.skip(i as int)[0] == (pairs@[i as int].0@, pairs@[i as int].1@));
        assert(all.skip(i as int).drop_first() == all.skip(i + 1));
        if same_text(pairs[i].0.as_str(), key) {
            return Some(pairs[i].1.clone());
        }
        i += 1;
    }
    None
}

/// The lag of a partition.
fn find_lag(pairs: &Vec<(String, i64)>, key: &str) -> (r: Option<i64>)
    ensures
        r == lag_at(number_pairs(pairs@), key@),
{
    let ghost all = number_pairs(pairs@);
    let mut i: usize = 0;
    assert(all.skip(0) == all);
    while i < pairs.len()
        invariant
            i <= pairs.len(),
            all == number_pairs(pairs@),
            lag_at(all, key@) == lag_at(all.skip(i as int), key@),
        decreases pairs.len() - i,
    {
        assert(all.skip(i as int)[0] == (pairs@[i as int].0@, pairs@[i as int].1));
        assert(all.skip(i as int).drop_first() == all.skip(i + 1));
        if same_text(pairs[i].0.as_str(), key) {
            return Some(pairs[i].1);
        }
        i += 1;
    }
    None
}

/// Puts a row into a list that has the greatest lag first.
fn insert_row(rows: &mut Vec<LagRow>, row: LagRow)
    ensures
        lag_rows(final(rows)@) == with_row(lag_rows(old(rows)@), row@),
{
    let ghost held = lag_rows(rows@);
    let mut p: usize = 0;
    while p < rows.len() && rows[p].lag >= row.lag
        invariant
            p <= rows.len(),
            rows@ == old(rows)@,
            held == lag_rows(rows@),
            forall|k: int| 0 <= k < p ==> (#[trigger] held[k]).lag >= row.lag,
        decreases rows.len() - p,
    {
        assert(held[p as int] == rows@[p as int]@);
        p += 1;
    }
    proof {
        if p < rows.len() {
            assert(held[p as int] == rows@[p as int]@);
        }
        lemma_with_row_at(held, row@, p as int);
    }
    let ghost added = row@;
    rows.insert(p, row);
    assert(lag_rows(rows@) =~= held.take(p as int) + seq![added] + held.skip(p as int));
}

/// The pairs of an optional list.
pub open spec fn pairs_or_none<T>(o: Option<Seq<T>>) -> Seq<T> {
    match o {
        Some(p) => p,
        None => seq![],
    }
}

/// The rows of a list whose lag is above zero, in order.
pub open spec fn behind(rows: Seq<LagRowView>) -> Seq<LagRowView>
    decreases rows.len(),
{
    if rows.len() == 0 {
        seq![]
    } else if rows.last().lag > 0 {
        behind(rows.drop_last()).push(rows.last())
    } else {
        behind(rows.drop_last())
    }
}

/// The number of jobs of a list that are in a state.
pub open spec fn in_state(jobs: Seq<RoutineLoadJobView>, state: Seq<char>) -> nat
    decreases jobs.len(),
{
    if jobs.len() == 0 {
        0
    } else {
        in_state(jobs.drop_last(), state) + if jobs.last().state == state {
            1nat
        } else {
            0nat
        }
    }
}

/// The jobs of a list that are in a state are no more than the jobs of the list.
proof fn lemma_in_state_bound(jobs: Seq<RoutineLoadJobView>, state: Seq<char>)
    ensures
        in_state(jobs, state) <= jobs.len(),
    decreases jobs.len(),
{
    if jobs.len() > 0 {
        lemma_in_state_bound(jobs.drop_last(), state);
    }
}

/// The line that shows a job in the list of jobs.
pub open spec fn job_line_text(job: RoutineLoadJobView) -> Seq<char> {
    "ID: "@ + job.id + " | Name: "@ + job.name + " | State: "@ + job.state + " | CreateTime: "@
        + job.create_time
}

/// The lines of the list of jobs: a heading, a line for each job, and the number
/// of jobs.
pub open spec fn listing_lines(jobs: Seq<RoutineLoadJobView>) -> Seq<Seq<char>> {
    seq![seq![], "Routine Load Jobs in Database:"@, repeated("="@, 100)] + Seq::new(
        jobs.len(),
        |i: int| job_line_text(jobs[i]),
    ) + seq![
        repeated("-"@, 100),
        "Total jobs found: "@ + decimal_text(jobs.len()),
        repeated("="@, 100),
    ]
}

/// The line that sums up jobs by their states.
pub open spec fn summary_text(jobs: Seq<RoutineLoadJobView>) -> Seq<char> {
    "Summary: "@ + decimal_text(jobs.len()) + " total jobs ("@ + decimal_text(
        in_state(jobs, "RUNNING"@),
    ) + " running, "@ + decimal_text(in_state(jobs, "PAUSED"@)) + " paused, "@ + decimal_text(
        in_state(jobs, "STOPPED"@),
    ) + " stopped)"@
}

/// What follows the query for the jobs of a database.
#[derive(Debug, Clone, Copy, PartialEq, Eq, Structural)]
pub enum ListingStep {
    /// Show the jobs and let the operator choose one.
    Show,
    /// The database holds no job: ask whether to choose another database.
    NoJobs,
    /// The database is not known: ask whether to choose another one.
    UnknownDatabase,
    /// Hand the failure on.
    Fail,
}

/// What follows the query for the jobs of a database: the jobs are shown where
/// there are any; the operator is asked where the tool failed and the failure
/// tells that the database holds no job, or else that it is unknown; any other
/// failure is handed on.
pub open spec fn listing_step(failure: Option<ErrorView>) -> ListingStep {
    match failure {
        None => ListingStep::Show,
        Some(ErrorView::ToolExecutionFailed(said)) => if has_substring(
            said,
            "No Routine Load jobs found in database"@,
        ) {
            ListingStep::NoJobs
        } else if has_substring(said, "Unknown database"@) {
            ListingStep::UnknownDatabase
        } else {
            ListingStep::Fail
        },
        Some(_) => ListingStep::Fail,
    }
}

/// What is said where a database has no routine load job.
pub open spec fn no_jobs(database: Seq<char>) -> ErrorView {
    ErrorView::ToolExecutionFailed("No Routine Load jobs found in database '"@ + database + "'"@)
}

impl RoutineLoadJobLister {
    /// What follows the query for the jobs of a database.
    pub fn execute(&self, queried: &Result<Vec<RoutineLoadJob>, CliError>) -> (r: ListingStep)
        ensures
            r == listing_step(
                match queried {
                    Ok(_) => None,
                    Err(e) => Some(e@),
                },
            ),
    {
        match queried {
            Ok(_) => ListingStep::Show,
            Err(CliError::ToolExecutionFailed(said)) => {
                if contains(said.as_str(), "No Routine Load jobs found in database") {
                    ListingStep::NoJobs
                } else if contains(said.as_str(), "Unknown database") {
                    ListingStep::UnknownDatabase
                } else {
                    ListingStep::Fail
                }
            },
            Err(_) => ListingStep::Fail,
        }
    }

    /// The query for the routine load jobs of a database.
    pub fn jobs_query(database: &str) -> (r: String)
        ensures
            r@ == "USE `"@ + database@ + "`; SHOW ALL ROUTINE LOAD \\G"@,
    {
        concat3("USE `", database, "`; SHOW ALL ROUTINE LOAD \\G")
    }

    /// The routine load jobs of a database, from the answer to the query for
    /// them. It is a failure where there is none.
    pub fn query_routine_load_jobs(&self, database: &str, output: &str) -> (r: Result<
        Vec<RoutineLoadJob>,
        CliError,
    >)
        ensures
            match parsed_jobs(blocks_of(output@), seq![]) {
                Ok(jobs) => if jobs.len() == 0 {
                    r is Err && r->Err_0@ == no_jobs(database@)
                } else {
                    r is Ok && job_views(r->Ok_0@) == jobs
                },
                Err(e) => r is Err && r->Err_0@ == e,
            },
    {
        let manager = RoutineLoadJobManager::new();
        let jobs = match manager.parse_routine_load_output(output) {
            Ok(jobs) => jobs,
            Err(e) => {
                return Err(e);
            },
        };
        if jobs.len() == 0 {
            return Err(
                CliError::ToolExecutionFailed(
                    concat3("No Routine Load jobs found in database '", database, "'"),
                ),
            );
        }
        Ok(jobs)
    }

    /// How many jobs of a list are in a state.
    pub fn count_in_state(jobs: &Vec<RoutineLoadJob>, state: &str) -> (r: usize)
        ensures
            r == in_state(job_views(jobs@), state@),
    {
        let ghost all = job_views(jobs@);
        let mut count: usize = 0;
        let mut i: usize = 0;
        assert(all.take(0) =~= Seq::<RoutineLoadJobView>::empty());
        while i < jobs.len()
            invariant
                i <= jobs.len(),
                all == job_views(jobs@),
                count == in_state(all.take(i as int), state@),
                count <= i,
            decreases jobs.len() - i,
        {
            let ghost next = all.take(i + 1);
            assert(next.drop_last() == all.take(i as int));
            assert(next.last() == jobs@[i as int]@);
            if same_text(jobs[i].state.as_str(), state) {
                count += 1;
            }
            i += 1;
        }
        assert(all.take(jobs.len() as int) == all);
        count
    }

    /// The line that sums up the jobs of a database by their states.
    fn summary_line(jobs: &Vec<RoutineLoadJob>) -> (r: String)
        ensures
            r@ == summary_text(job_views(jobs@)),
    {
        let total = u64_to_string(jobs.len() as u64);
        let running = u64_to_string(RoutineLoadJobLister::count_in_state(jobs, "RUNNING") as u64);
        let paused = u64_to_string(RoutineLoadJobLister::count_in_state(jobs, "PAUSED") as u64);
        let stopped = u64_to_string(RoutineLoadJobLister::count_in_state(jobs, "STOPPED") as u64);
        let a = concat3("Summary: ", total.as_str(), " total jobs (");
        let b = concat3(a.as_str(), running.as_str(), " running, ");
        let c = concat3(b.as_str(), paused.as_str(), " paused, ");
        concat3(c.as_str(), stopped.as_str(), " stopped)")
    }

    /// The line that shows a job in the list of jobs.
    pub fn job_line(job: &RoutineLoadJob) -> (r: String)
        ensures
            r@ == job_line_text(job@),
    {
        let a = concat3("ID: ", job.id.as_str(), " | Name: ");
        let b = concat3(a.as_str(), job.name.as_str(), " | State: ");
        let c = concat3(b.as_str(), job.state.as_str(), " | CreateTime: ");
        concat(c.as_str(), job.create_time.as_str())
    }

    /// What is shown of the jobs of a database: the lines of the list, one to a
    /// job between a heading and the number of jobs, and the line that sums the
    /// jobs up by their states.
    pub fn display_jobs(&self, jobs: &Vec<RoutineLoadJob>) -> (r: (Vec<String>, String))
        ensures
            texts(r.0@) == listing_lines(job_views(jobs@)),
            r.1@ == summary_text(job_views(jobs@)),
    {
        let ghost all = job_views(jobs@);
        let mut lines: Vec<String> = Vec::new();
        lines.push(String::new());
        lines.push("Routine Load Jobs in Database:".to_owned());
        lines.push(repeat("=", 100));
        let mut i: usize = 0;
        while i < jobs.len()
            invariant
                i <= jobs.len(),
                all == job_views(jobs@),
                lines@.len() == 3 + i,
                lines@[0]@ == Seq::<char>::empty(),
                lines@[1]@ == "Routine Load Jobs in Database:"@,
                lines@[2]@ == repeated("="@, 100),
                forall|k: int|
                    3 <= k < 3 + i ==> (#[trigger] lines@[k])@ == job_line_text(all[k - 3]),
            decreases jobs.len() - i,
        {
            lines.push(RoutineLoadJobLister::job_line(&jobs[i]));
            i += 1;
        }
        lines.push(repeat("-", 100));
        lines.push(concat("Total jobs found: ", u64_to_string(jobs.len() as u64).as_str()));
        lines.push(repeat("=", 100));
        proof {
            let head = seq![seq![], "Routine Load Jobs in Database:"@, repeated("="@, 100)];
            let body = Seq::new(all.len(), |i: int| job_line_text(all[i]));
            let want = listing_lines(all);
            assert(want.len() == lines@.len());
            assert forall|k: int| 0 <= k < want.len() implies texts(lines@)[k] == want[k] by {
                if k < 3 {
                    assert(want[k] == head[k]);
                } else if k < 3 + all.len() {
                    assert(want[k] == body[k - 3]);
                }
            }
            assert(texts(lines@) =~= want);
        }
        (lines, RoutineLoadJobLister::summary_line(jobs))
    }

    /// Remembers the job that the operator chose, in place of everything that
    /// was remembered of jobs before.
    pub fn save_selected_job(
        &self,
        manager: &mut RoutineLoadJobManager,
        job: &RoutineLoadJob,
        database: &str,
    ) -> (r: Result<(), CliError>)
        ensures
            r is Ok,
            final(manager).state@ == (RoutineLoadStateView {
                current_job_id: Some(job@.id),
                current_job_name: Some(job@.name),
                last_database: Some(database@),
                job_cache: seq![job@],
            }),
    {
        let _ = manager.save_job_id(job.id.clone(), job.name.clone(), database.to_owned());
        let mut jobs: Vec<RoutineLoadJob> = Vec::new();
        jobs.push(job.clone());
        proof {
            let all = job_views(jobs@);
            assert(all =~= seq![job@]);
            assert(all.drop_last() =~= Seq::<RoutineLoadJobView>::empty());
            reveal_with_fuel(latest_jobs, 2);
            reveal_with_fuel(crate::tools::fe::routine_load::job_manager::without_id, 2);
            assert(latest_jobs(all) =~= seq![job@]);
        }
        let _ = manager.update_job_cache(jobs);
        Ok(())
    }

    /// The partitions of the source of a job, greatest lag first: those that the
    /// progress names, and those that only the lag names. A partition without a
    /// lag counts as not behind.
    pub fn build_partition_rows(
        &self,
        progress: Option<&Vec<(String, String)>>,
        lag: Option<&Vec<(String, i64)>>,
    ) -> (r: Vec<LagRow>)
        ensures
            lag_rows(r@) == rows_of_both(
                pairs_or_none(
                    match lag {
                        Some(l) => Some(number_pairs(l@)),
                        None => None,
                    },
                ),
                pairs_or_none(
                    match progress {
                        Some(p) => Some(text_pairs(p@)),
                        None => None,
                    },
                ),
                pairs_or_none(
                    match lag {
                        Some(l) => Some(number_pairs(l@)),
                        None => None,
                    },
                ),
            ),
    {
        let no_progress: Vec<(String, String)> = Vec::new();
        let no_lag: Vec<(String, i64)> = Vec::new();
        assert(text_pairs(no_progress@) =~= seq![]);
        assert(number_pairs(no_lag@) =~= seq![]);
        let p = match progress {
            Some(p) => p,
            None => &no_progress,
        };
        let l = match lag {
            Some(l) => l,
            None => &no_lag,
        };
        let ghost ps = text_pairs(p@);
        let ghost ls = number_pairs(l@);
        let mut rows: Vec<LagRow> = Vec::new();
        let mut i: usize = 0;
        assert(ps.take(0) =~= Seq::<(Seq<char>, Seq<char>)>::empty());
        assert(lag_rows(rows@) =~= seq![]);
        while i < p.len()
            invariant
                i <= p.len(),
                ps == text_pairs(p@),
                ls == number_pairs(l@),
                lag_rows(rows@) == rows_of_progress(ps.take(i as int), ps, ls),
            decreases p.len() - i,
        {
            let ghost next = ps.take(i + 1);
            assert(next.drop_last() == ps.take(i as int));
            assert(next.last() == (p@[i as int].0@, p@[i as int].1@));
            let key = p[i].0.as_str();
            let row = LagRow {
                partition: p[i].0.clone(),
                progress: find_progress(p, key),
                lag: match find_lag(l, key) {
                    Some(n) => n,
                    None => 0,
                },
            };
            insert_row(&mut rows, row);
            i += 1;
        }
        assert(ps.take(p.len() as int) == ps);
        let mut j: usize = 0;
        assert(ls.take(0) =~= Seq::<(Seq<char>, i64)>::empty());
        while j < l.len()
            invariant
                j <= l.len(),
                ps == text_pairs(p@),
                ls == number_pairs(l@),
                lag_rows(rows@) == rows_of_both(ls.take(j as int), ps, ls),
            decreases l.len() - j,
        {
            let ghost next = ls.take(j + 1);
            assert(next.drop_last() == ls.take(j as int));
            assert(next.last() == (l@[j as int].0@, l@[j as int].1));
            let key = l[j].0.as_str();
            let known = find_progress(p, key);
            if known.is_none() {
                let row = LagRow {
                    partition: l[j].0.clone(),
                    progress: None,
                    lag: match find_lag(l, key) {
                        Some(n) => n,
                        None => 0,
                    },
                };
                insert_row(&mut rows, row);
            }
            j += 1;
        }
        assert(ls.take(l.len() as int) == ls);
        rows
    }

    /// The line of a partition in the overview.
    pub fn partition_line(row: &LagRow) -> (r: String)
        ensures
            r@ == partition_line_text(row@),
    {
        let progress = match &row.progress {
            Some(p) => pad_left(p.as_str(), 11),
            None => pad_left("N/A", 11),
        };
        let part = pad_left(row.partition.as_str(), 11);
        let lag_text = i64_to_string(row.lag);
        let lag = pad_left(lag_text.as_str(), 11);
        let a = concat3("│ ", part.as_str(), " │ ");
        let b = concat3(a.as_str(), progress.as_str(), " │ ");
        concat3(b.as_str(), lag.as_str(), " │\n")
    }

    /// The rows of a list whose lag is above zero.
    pub fn nonzero_rows(rows: &Vec<LagRow>) -> (r: Vec<LagRow>)
        ensures
            lag_rows(r@) == behind(lag_rows(rows@)),
    {
        let ghost all = lag_rows(rows@);
        let mut out: Vec<LagRow> = Vec::new();
        let mut i: usize = 0;
        assert(all.take(0) =~= Seq::<LagRowView>::empty());
        assert(lag_rows(out@) =~= seq![]);
        while i < rows.len()
            invariant
                i <= rows.len(),
                all == lag_rows(rows@),
                lag_rows(out@) == behind(all.take(i as int)),
            decreases rows.len() - i,
        {
            let ghost next = all.take(i + 1);
            assert(next.drop_last() == all.take(i as int));
            assert(next.last() == rows@[i as int]@);
            if rows[i].lag > 0 {
                let ghost before = lag_rows(out@);
                out.push(rows[i].clone());
                assert(lag_rows(out@) =~= before.push(rows@[i as int]@));
            }
            i += 1;
        }
        assert(all.take(rows.len() as int) == all);
        out
    }

    /// The file that lists all partitions of a job.
    pub fn partitions_file(base_dir: &str, job_id: &str) -> (r: String)
        ensures
            r@ == path_join(base_dir@, "routine_load_partitions_"@ + job_id@ + ".txt"@),
    {
        let name = concat3("routine_load_partitions_", job_id, ".txt");
        join_path(base_dir, name.as_str())
    }

    /// The line of a partition in the file that lists all partitions.
    fn file_line(row: &LagRow) -> (r: String)
        ensures
            r@ == file_line_text(row@),
    {
        let progress = match &row.progress {
            Some(p) => p.clone(),
            None => "N/A".to_owned(),
        };
        let lag = i64_to_string(row.lag);
        let head = concat3(row.partition.as_str(), "\t", progress.as_str());
        concat3(head.as_str(), "\t", lag.as_str()).concat("\n")
    }

    /// The file that lists all partitions of a job, and what is written to it:
    /// a heading, and a line for each row.
    pub fn write_full_partitions_file(&self, rows: &Vec<LagRow>, job_id: &str, base_dir: &str) -> (r:
        (String, String))
        ensures
            r.0@ == path_join(base_dir@, "routine_load_partitions_"@ + job_id@ + ".txt"@),
            r.1@ == "Partition\tProgress\tLag\n"@ + file_lines(lag_rows(rows@)),
    {
        let ghost all = lag_rows(rows@);
        let mut content = "Partition\tProgress\tLag\n".to_owned();
        let ghost head = content@;
        let mut i: usize = 0;
        assert(all.take(0) =~= Seq::<LagRowView>::empty());
        assert(head + file_lines(all.take(0)) =~= head);
        while i < rows.len()
            invariant
                i <= rows.len(),
                all == lag_rows(rows@),
                content@ == head + file_lines(all.take(i as int)),
            decreases rows.len() - i,
        {
            let ghost next = all.take(i + 1);
            assert(next.drop_last() == all.take(i as int));
            assert(next.last() == rows@[i as int]@);
            let line = RoutineLoadJobLister::file_line(&rows[i]);
            content.append(line.as_str());
            assert(content@ =~= head + file_lines(next));
            i += 1;
        }
        assert(all.take(rows.len() as int) == all);
        (RoutineLoadJobLister::partitions_file(base_dir, job_id), content)
    }
}

/// The line of a partition in the file that lists all partitions: its name, its
/// progress and its lag, with a tab between them.
pub open spec fn file_line_text(row: LagRowView) -> Seq<char> {
    row.partition + "\t"@ + (match row.progress {
        Some(p) => p,
        None => "N/A"@,
    }) + "\t"@ + signed_text(row.lag as int) + "\n"@
}

/// The lines of the rows in the file that lists all partitions.
pub open spec fn file_lines(rows: Seq<LagRowView>) -> Seq<char>
    decreases rows.len(),
{
    if rows.len() == 0 {
        seq![]
    } else {
        file_lines(rows.drop_last()) + file_line_text(rows.last())
    }
}

/// The line of a partition in the overview: its name, its progress and its lag,
/// each to the right of a column of eleven characters.
pub open spec fn partition_line_text(row: LagRowView) -> Seq<char> {
    "│ "@ + padded_left(row.partition, 11) + " │ "@ + padded_left(
        match row.progress {
            Some(p) => p,
            None => "N/A"@,
        },
        11,
    ) + " │ "@ + padded_left(signed_text(row.lag as int), 11) + " │\n"@
}


/// A list of rows, least lag first, with one more row put in: behind every row
/// whose lag is not greater than its own.
pub open spec fn with_row_rising(sorted: Seq<LagRowView>, row: LagRowView) -> Seq<LagRowView>
    decreases sorted.len(),
{
    if sorted.len() == 0 {
        seq![row]
    } else if sorted[0].lag > row.lag {
        seq![row] + sorted
    } else {
        seq![sorted[0]] + with_row_rising(sorted.drop_first(), row)
    }
}

/// The rows of a list, greatest lag first; rows of one lag stay in their order.
pub open spec fn falling(rows: Seq<LagRowView>) -> Seq<LagRowView>
    decreases rows.len(),
{
    if rows.len() == 0 {
        seq![]
    } else {
        with_row(falling(rows.drop_last()), rows.last())
    }
}

/// The rows of a list, least lag first; rows of one lag stay in their order.
pub open spec fn rising(rows: Seq<LagRowView>) -> Seq<LagRowView>
    decreases rows.len(),
{
    if rows.len() == 0 {
        seq![]
    } else {
        with_row_rising(rising(rows.drop_last()), rows.last())
    }
}

/// The first `n` rows of a list, or all where there are fewer.
pub open spec fn first_rows(rows: Seq<LagRowView>, n: int) -> Seq<LagRowView> {
    if n < rows.len() {
        rows.take(n)
    } else {
        rows
    }
}

/// The lines of the rows of a list, in a row.
pub open spec fn partition_lines(rows: Seq<LagRowView>) -> Seq<char>
    decreases rows.len(),
{
    if rows.len() == 0 {
        seq![]
    } else {
        partition_lines(rows.drop_last()) + partition_line_text(rows.last())
    }
}

/// The head of a table of partitions.
pub open spec fn table_head() -> Seq<char> {
    "┌─────────────┬─────────────┬─────────────┐\n"@
        + "│  Partition  │   Progress  │     Lag     │\n"@
        + "├─────────────┼─────────────┼─────────────┤\n"@
}

/// The foot of a table of partitions.
pub open spec fn table_foot() -> Seq<char> {
    "└─────────────┴─────────────┴─────────────┘\n"@
}

/// The overview of the partitions that are behind: a table of those with the
/// greatest lag, and a table of those with the least.
pub open spec fn overview_of(rows: Seq<LagRowView>, top_n: int, bottom_n: int) -> Seq<char> {
    let late = behind(rows);
    let top = first_rows(falling(late), top_n);
    let bottom = first_rows(rising(falling(late)), bottom_n);
    "Top by lag:\n"@ + table_head() + (if top.len() == 0 {
        "│               (no data)               │\n"@
    } else {
        partition_lines(top)
    }) + table_foot() + "Bottom by lag:\n"@ + table_head() + partition_lines(bottom) + table_foot()
}

/// Putting a row into a rising list leaves what stands before its place.
proof fn lemma_with_row_rising_at(sorted: Seq<LagRowView>, row: LagRowView, p: int)
    requires
        0 <= p <= sorted.len(),
        forall|k: int| 0 <= k < p ==> (#[trigger] sorted[k]).lag <= row.lag,
        p < sorted.len() ==> sorted[p].lag > row.lag,
    ensures
        with_row_rising(sorted, row) == sorted.take(p) + seq![row] + sorted.skip(p),
    decreases sorted.len(),
{
    if sorted.len() == 0 {
        assert(sorted.take(p) + seq![row] + sorted.skip(p) =~= seq![row]);
    } else if p == 0 {
        assert(sorted.take(0) + seq![row] + sorted.skip(0) =~= seq![row] + sorted);
    } else {
        let rest = sorted.drop_first();
        assert(sorted[0].lag <= row.lag);
        assert forall|k: int| 0 <= k < p - 1 implies (#[trigger] rest[k]).lag <= row.lag by {
            assert(rest[k] == sorted[k + 1]);
        }
        lemma_with_row_rising_at(rest, row, p - 1);
        assert(seq![sorted[0]] + (rest.take(p - 1) + seq![row] + rest.skip(p - 1)) =~= sorted.take(
            p,
        ) + seq![row] + sorted.skip(p));
    }
}

/// Puts a row into a list that has the least lag first.
fn insert_row_rising(rows: &mut Vec<LagRow>, row: LagRow)
    ensures
        lag_rows(final(rows)@) == with_row_rising(lag_rows(old(rows)@), row@),
{
    let ghost held = lag_rows(rows@);
    let mut p: usize = 0;
    while p < rows.len() && rows[p].lag <= row.lag
        invariant
            p <= rows.len(),
            rows@ == old(rows)@,
            held == lag_rows(rows@),
            forall|k: int| 0 <= k < p ==> (#[trigger] held[k]).lag <= row.lag,
        decreases rows.len() - p,
    {
        assert(held[p as int] == rows@[p as int]@);
        p += 1;
    }
    proof {
        if p < rows.len() {
            assert(held[p as int] == rows@[p as int]@);
        }
        lemma_with_row_rising_at(held, row@, p as int);
    }
    let ghost added = row@;
    rows.insert(p, row);
    assert(lag_rows(rows@) =~= held.take(p as int) + seq![added] + held.skip(p as int));
}

/// The rows of a list in the order of their lag.
fn sort_rows(rows: &Vec<LagRow>, rising_order: bool) -> (r: Vec<LagRow>)
    ensures
        lag_rows(r@) == if rising_order {
            rising(lag_rows(rows@))
        } else {
            falling(lag_rows(rows@))
        },
{
    let ghost all = lag_rows(rows@);
    let mut out: Vec<LagRow> = Vec::new();
    let mut i: usize = 0;
    assert(all.take(0) =~= Seq::<LagRowView>::empty());
    assert(lag_rows(out@) =~= seq![]);
    while i < rows.len()
        invariant
            i <= rows.len(),
            all == lag_rows(rows@),
            lag_rows(out@) == if rising_order {
                rising(all.take(i as int))
            } else {
                falling(all.take(i as int))
            },
        decreases rows.len() - i,
    {
        let ghost next = all.take(i + 1);
        assert(next.drop_last() == all.take(i as int));
        assert(next.last() == rows@[i as int]@);
        if rising_order {
            insert_row_rising(&mut out, rows[i].clone());
        } else {
            insert_row(&mut out, rows[i].clone());
        }
        i += 1;
    }
    assert(all.take(rows.len() as int) == all);
    out
}

/// The lines of the first `n` rows of a list, in a row.
fn lines_of_first(rows: &Vec<LagRow>, n: usize) -> (r: String)
    ensures
        r@ == partition_lines(first_rows(lag_rows(rows@), n as int)),
{
    let ghost all = lag_rows(rows@);
    let limit = if n < rows.len() {
        n
    } else {
        rows.len()
    };
    let ghost wanted = first_rows(all, n as int);
    assert(wanted =~= all.take(limit as int));
    let mut out = String::new();
    let mut i: usize = 0;
    assert(wanted.take(0) =~= Seq::<LagRowView>::empty());
    while i < limit
        invariant
            i <= limit <= rows.len(),
            all == lag_rows(rows@),
            wanted == all.take(limit as int),
            out@ == partition_lines(wanted.take(i as int)),
        decreases limit - i,
    {
        let ghost next = wanted.take(i + 1);
        assert(next.drop_last() == wanted.take(i as int));
        assert(next.last() == rows@[i as int]@);
        let line = RoutineLoadJobLister::partition_line(&rows[i]);
        out.append(line.as_str());
        i += 1;
    }
    assert(wanted.take(limit as int) == wanted);
    out
}

impl RoutineLoadJobLister {
    /// The overview of the partitions that are behind: the `top_n` with the
    /// greatest lag, and the `bottom_n` with the least.
    pub fn format_partitions_overview_nonzero_top_bottom(
        &self,
        rows: &Vec<LagRow>,
        top_n: usize,
        bottom_n: usize,
    ) -> (r: String)
        ensures
            r@ == overview_of(lag_rows(rows@), top_n as int, bottom_n as int),
    {
        let late = RoutineLoadJobLister::nonzero_rows(rows);
        let by_lag = sort_rows(&late, false);
        let mut out = "Top by lag:\n".to_owned();
        out.append("┌─────────────┬─────────────┬─────────────┐\n");
        out.append("│  Partition  │   Progress  │     Lag     │\n");
        out.append("├─────────────┼─────────────┼─────────────┤\n");
        if by_lag.len() == 0 || top_n == 0 {
            out.append("│               (no data)               │\n");
            assert(first_rows(lag_rows(by_lag@), top_n as int).len() == 0);
        } else {
            let top = lines_of_first(&by_lag, top_n);
            out.append(top.as_str());
        }
        out.append("└─────────────┴─────────────┴─────────────┘\n");
        out.append("Bottom by lag:\n");
        out.append("┌─────────────┬─────────────┬─────────────┐\n");
        out.append("│  Partition  │   Progress  │     Lag     │\n");
        out.append("├─────────────┼─────────────┼─────────────┤\n");
        let least_first = sort_rows(&by_lag, true);
        let bottom = lines_of_first(&least_first, bottom_n);
        out.append(bottom.as_str());
        out.append("└─────────────┴─────────────┴─────────────┘\n");
        assert(out@ =~= overview_of(lag_rows(rows@), top_n as int, bottom_n as int));
        out
    }

    /// The head of the report on the job that the operator chose: what the job
    /// is, and its counters where it has any.
    fn head_of_report(job: &RoutineLoadJob) -> (r: String)
        ensures
            r@ == report_head(job@),
    {
        let mut report = "Routine Load Job Selection Report\n".to_owned();
        report.append("=================================\n\n");
        report.append(concat3("Selected Job ID: ", job.id.as_str(), "\n").as_str());
        report.append(concat3("Job Name: ", job.name.as_str(), "\n").as_str());
        report.append(concat3("State: ", job.state.as_str(), "\n").as_str());
        report.append(concat3("Database: ", job.db_name.as_str(), "\n").as_str());
        report.append(concat3("Table: ", job.table_name.as_str(), "\n").as_str());
        report.append(concat3("Create Time: ", job.create_time.as_str(), "\n").as_str());
        match &job.pause_time {
            Some(t) => {
                report.append(concat3("Pause Time: ", t.as_str(), "\n").as_str());
            },
            None => {
                assert(report@ + Seq::<char>::empty() =~= report@);
            },
        }
        match &job.statistic {
            Some(stat) => {
                report.append("\nStatistics:\n");
                report.append(
                    concat3("  Loaded Rows: ", u64_to_string(stat.loaded_rows).as_str(), "\n").as_str(),
                );
                report.append(
                    concat3("  Error Rows: ", u64_to_string(stat.error_rows).as_str(), "\n").as_str(),
                );
                report.append(
                    concat3(
                        "  Received Bytes: ",
                        u64_to_string(stat.received_bytes).as_str(),
                        "\n",
                    ).as_str(),
                );
            },
            None => {
                assert(report@ + Seq::<char>::empty() =~= report@);
            },
        }
        assert(report@ =~= report_head(job@));
        report
    }

    /// How many rows are behind, how many are not, and how many there are.
    fn count_line(late: usize, total: usize) -> (r: String)
        requires
            late <= total,
        ensures
            r@ == counts_text(late as nat, total as nat),
    {
        let a = concat3("non-zero-lag: ", u64_to_string(late as u64).as_str(), ", zero-lag: ");
        let b = concat3(a.as_str(), u64_to_string((total - late) as u64).as_str(), ", total: ");
        concat3(b.as_str(), u64_to_string(total as u64).as_str(), "\n")
    }

    /// What came of writing the file that lists all partitions.
    fn saved_line(saved: &Result<String, CliError>) -> (r: String)
        ensures
            r@ == saved_text(
                match saved {
                    Ok(path) => Ok(path@),
                    Err(e) => Err(e.text()),
                },
            ),
    {
        match saved {
            Ok(path) => concat3("Full partitions saved to: ", path.as_str(), "\n"),
            Err(e) => concat3("Failed to save full partitions file: ", e.message().as_str(), "\n"),
        }
    }

    /// What the report says of the partitions of a job.
    fn partitions_section(&self, job: &RoutineLoadJob, saved: &Result<String, CliError>) -> (r:
        String)
        ensures
            r@ == partitions_part(
                job@,
                match saved {
                    Ok(path) => Ok(path@),
                    Err(e) => Err(e.text()),
                },
            ),
    {
        if job.lag.is_none() {
            return String::new();
        }
        let rows = self.build_partition_rows(job.progress.as_ref(), job.lag.as_ref());
        assert(lag_rows(rows@) == job_rows(job@));
        if rows.len() == 0 {
            return String::new();
        }
        let late = RoutineLoadJobLister::nonzero_rows(&rows);
        proof {
            lemma_behind_len(lag_rows(rows@));
        }
        assert(late@.len() == lag_rows(late@).len());
        let overview = self.format_partitions_overview_nonzero_top_bottom(&rows, 30, 20);
        let head = concat("\nPartitions Overview (non-zero lags only):\n", overview.as_str());
        let counts = RoutineLoadJobLister::count_line(late.len(), rows.len());
        let file = RoutineLoadJobLister::saved_line(saved);
        concat3(head.as_str(), counts.as_str(), file.as_str())
    }

    /// The report on the job that the operator chose: what the job is, its
    /// counters, an overview of its partitions where it tells a lag and has
    /// any, with what came of writing the file that lists them all, and the
    /// time of the choice.
    pub fn generate_selection_report(
        &self,
        job: &RoutineLoadJob,
        saved: &Result<String, CliError>,
        selection_time: &str,
    ) -> (r: String)
        ensures
            r@ == selection_report(
                job@,
                match saved {
                    Ok(path) => Ok(path@),
                    Err(e) => Err(e.text()),
                },
                selection_time@,
            ),
    {
        let head = RoutineLoadJobLister::head_of_report(job);
        let partitions = self.partitions_section(job, saved);
        let time = concat3("\nSelection Time: ", selection_time, "\n");
        concat3(head.as_str(), partitions.as_str(), time.as_str())
    }
}

/// The rows of the partitions of a job, greatest lag first.
pub open spec fn job_rows(job: RoutineLoadJobView) -> Seq<LagRowView> {
    rows_of_both(pairs_or_none(job.lag), pairs_or_none(job.progress), pairs_or_none(job.lag))
}

/// How many rows are behind, how many are not, and how many there are.
pub open spec fn counts_text(late: nat, total: nat) -> Seq<char> {
    "non-zero-lag: "@ + decimal_text(late) + ", zero-lag: "@ + decimal_text(
        (total - late) as nat,
    ) + ", total: "@ + decimal_text(total) + "\n"@
}

/// Where the file that lists all partitions is, or why it could not be written.
pub open spec fn saved_text(saved: Result<Seq<char>, Seq<char>>) -> Seq<char> {
    match saved {
        Ok(path) => "Full partitions saved to: "@ + path + "\n"@,
        Err(said) => "Failed to save full partitions file: "@ + said + "\n"@,
    }
}

/// What the report says of the partitions of a job: nothing where the job tells
/// no lag or has no partition; else the overview of those that are behind, how
/// many are behind, how many are not and how many there are, and what came of
/// writing the file that lists them all.
pub open spec fn partitions_part(job: RoutineLoadJobView, saved: Result<Seq<char>, Seq<char>>) -> Seq<
    char,
> {
    let rows = job_rows(job);
    if job.lag is Some && rows.len() > 0 {
        "\nPartitions Overview (non-zero lags only):\n"@ + overview_of(rows, 30, 20) + counts_text(
            behind(rows).len(),
            rows.len(),
        ) + saved_text(saved)
    } else {
        seq![]
    }
}

/// The report on a job that was chosen at `selection_time`.
pub open spec fn selection_report(
    job: RoutineLoadJobView,
    saved: Result<Seq<char>, Seq<char>>,
    selection_time: Seq<char>,
) -> Seq<char> {
    report_head(job) + partitions_part(job, saved) + ("\nSelection Time: "@ + selection_time
        + "\n"@)
}

/// No more rows are behind than there are rows.
proof fn lemma_behind_len(rows: Seq<LagRowView>)
    ensures
        behind(rows).len() <= rows.len(),
    decreases rows.len(),
{
    if rows.len() > 0 {
        lemma_behind_len(rows.drop_last());
    }
}

/// The head of the report on a job.
pub open spec fn report_head(job: RoutineLoadJobView) -> Seq<char> {
    "Routine Load Job Selection Report\n"@ + "=================================\n\n"@ + (
    "Selected Job ID: "@ + job.id + "\n"@) + ("Job Name: "@ + job.name + "\n"@) + ("State: "@
        + job.state + "\n"@) + ("Database: "@ + job.db_name + "\n"@) + ("Table: "@
        + job.table_name + "\n"@) + ("Create Time: "@ + job.create_time + "\n"@) + (
    match job.pause_time {
        Some(t) => "Pause Time: "@ + t + "\n"@,
        None => seq![],
    }) + (match job.statistic {
        Some(stat) => "\nStatistics:\n"@ + ("  Loaded Rows: "@ + decimal_text(
            stat.loaded_rows as nat,
        ) + "\n"@) + ("  Error Rows: "@ + decimal_text(stat.error_rows as nat) + "\n"@) + (
        "  Received Bytes: "@ + decimal_text(stat.received_bytes as nat) + "\n"@),
        None => seq![],
    })
}

} // verus!
