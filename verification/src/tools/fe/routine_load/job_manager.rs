use crate::error::{CliError, ErrorView};
use crate::text::{
    all_digits, chars_of, clone_opt, concat, is_digit, opt_text, same_text, texts,
};
use crate::tools::fe::routine_load::models::{
    clone_jobs, distinct_ids, empty_state, has_job, job_views, JobStatistic, RoutineLoadJob,
    RoutineLoadJobView, RoutineLoadState, RoutineLoadStateView,
};
use crate::tools::json::{
    complaint_of, json_complaint, json_member_u64, json_number_entries, json_text_entries,
    member_u64_of, number_entries_of, number_pairs, text_entries_of, text_pairs,
};
use crate::tools::mysql::parser::{
    block_fields, blocks_of, field_map, lookup, pairs_of, parse_key_value_pairs, split_into_blocks,
};
use vstd::prelude::*;

verus! {

/// Keeps what a session remembers of routine load jobs.
#[derive(Debug)]
pub struct RoutineLoadJobManager {
    pub state: RoutineLoadState,
}

/// `jobs` without the jobs that have the id.
pub open spec fn without_id(jobs: Seq<RoutineLoadJobView>, id: Seq<char>) -> Seq<
    RoutineLoadJobView,
>
    decreases jobs.len(),
{
    if jobs.len() == 0 {
        seq![]
    } else if jobs.last().id == id {
        without_id(jobs.drop_last(), id)
    } else {
        without_id(jobs.drop_last(), id).push(jobs.last())
    }
}

/// Of the jobs of a list, those that no later job of the list has the id of.
pub open spec fn latest_jobs(jobs: Seq<RoutineLoadJobView>) -> Seq<RoutineLoadJobView>
    decreases jobs.len(),
{
    if jobs.len() == 0 {
        seq![]
    } else {
        without_id(latest_jobs(jobs.drop_last()), jobs.last().id).push(jobs.last())
    }
}

/// What is left of a list without an id holds no job with that id, and no job
/// that the list did not hold; and it has distinct ids where the list had.
pub proof fn lemma_without_id(jobs: Seq<RoutineLoadJobView>, id: Seq<char>)
    ensures
        !has_job(without_id(jobs, id), id),
        forall|k: int|
            0 <= k < without_id(jobs, id).len() ==> has_job(
                jobs,
                (#[trigger] without_id(jobs, id)[k]).id,
            ),
        distinct_ids(jobs) ==> distinct_ids(without_id(jobs, id)),
    decreases jobs.len(),
{
    if jobs.len() > 0 {
        let rest = jobs.drop_last();
        lemma_without_id(rest, id);
        let out = without_id(jobs, id);
        assert forall|k: int| 0 <= k < out.len() implies has_job(jobs, (#[trigger] out[k]).id) by {
            if k < without_id(rest, id).len() {
                let w = without_id(rest, id)[k];
                assert(has_job(rest, w.id));
                let m = choose|m: int| 0 <= m < rest.len() && rest[m].id == w.id;
                assert(jobs[m].id == w.id);
            } else {
                assert(jobs[jobs.len() - 1].id == out[k].id);
            }
        }
        if distinct_ids(jobs) {
            assert(distinct_ids(rest)) by {
                assert forall|i: int, j: int| 0 <= i < j < rest.len() implies rest[i].id
                    != rest[j].id by {
                    assert(jobs[i].id != jobs[j].id);
                }
            }
            if jobs.last().id != id {
                let inner = without_id(rest, id);
                assert forall|i: int, j: int| 0 <= i < j < out.len() implies out[i].id
                    != out[j].id by {
                    if j == out.len() - 1 {
                        assert(has_job(rest, inner[i].id));
                        let m = choose|m: int| 0 <= m < rest.len() && rest[m].id == inner[i].id;
                        assert(jobs[m].id != jobs[jobs.len() - 1].id);
                    }
                }
            }
        }
    }
}

/// The latest jobs of a list have distinct ids.
pub proof fn lemma_latest_jobs_distinct(jobs: Seq<RoutineLoadJobView>)
    ensures
        distinct_ids(latest_jobs(jobs)),
    decreases jobs.len(),
{
    if jobs.len() > 0 {
        let rest = jobs.drop_last();
        lemma_latest_jobs_distinct(rest);
        let id = jobs.last().id;
        lemma_without_id(latest_jobs(rest), id);
        let inner = without_id(latest_jobs(rest), id);
        let out = latest_jobs(jobs);
        assert forall|i: int, j: int| 0 <= i < j < out.len() implies out[i].id != out[j].id by {
            if j == out.len() - 1 {
                if inner[i].id == id {
                    assert(has_job(inner, id));
                }
            }
        }
    }
}

/// The counter that a member of the statistics stands for: nothing counts as zero.
pub fn counter(value: Option<u64>) -> (r: u64)
    ensures
        r == match value {
            Some(n) => n,
            None => 0,
        },
{
    match value {
        Some(n) => n,
        None => 0,
    }
}

/// A counter of the statistics of a job.
pub open spec fn counter_of(text: Seq<char>, key: Seq<char>) -> u64 {
    match json_member_u64(text, key) {
        Some(n) => n,
        None => 0,
    }
}

/// The statistics that a text holds as JSON: each counter under its name, a
/// counter that is not there as zero. A text that is no JSON is a failure.
pub open spec fn statistic_of(text: Seq<char>) -> Result<JobStatistic, ErrorView> {
    match json_complaint(text) {
        Some(e) => Err(ErrorView::ToolExecutionFailed("Failed to parse statistic: "@ + e)),
        None => Ok(
            JobStatistic {
                received_bytes: counter_of(text, "receivedBytes"@),
                loaded_rows: counter_of(text, "loadedRows"@),
                error_rows: counter_of(text, "errorRows"@),
                committed_task_num: counter_of(text, "committedTaskNum"@),
                load_rows_rate: counter_of(text, "loadRowsRate"@),
                aborted_task_num: counter_of(text, "abortedTaskNum"@),
                total_rows: counter_of(text, "totalRows"@),
                unselected_rows: counter_of(text, "unselectedRows"@),
                received_bytes_rate: counter_of(text, "receivedBytesRate"@),
                task_execute_time_ms: counter_of(text, "taskExecuteTimeMs"@),
            },
        ),
    }
}

/// The progress that a text holds as JSON: the offset of each partition.
pub open spec fn progress_of(text: Seq<char>) -> Result<Seq<(Seq<char>, Seq<char>)>, ErrorView> {
    match json_text_entries(text) {
        Ok(entries) => Ok(entries),
        Err(e) => Err(ErrorView::ToolExecutionFailed("Failed to parse progress: "@ + e)),
    }
}

/// The lag that a text holds as JSON: how far each partition is behind.
pub open spec fn lag_of(text: Seq<char>) -> Result<Seq<(Seq<char>, i64)>, ErrorView> {
    match json_number_entries(text) {
        Ok(entries) => Ok(entries),
        Err(e) => Err(ErrorView::ToolExecutionFailed("Failed to parse lag: "@ + e)),
    }
}

/// A field that is there and does not say `NULL`.
pub open spec fn given(fields: Map<Seq<char>, Seq<char>>, key: Seq<char>) -> Option<Seq<char>> {
    if fields.contains_key(key) && fields[key] != "NULL"@ {
        Some(fields[key])
    } else {
        None
    }
}

/// A field that is there.
pub open spec fn present(fields: Map<Seq<char>, Seq<char>>, key: Seq<char>) -> Option<Seq<char>> {
    if fields.contains_key(key) {
        Some(fields[key])
    } else {
        None
    }
}

/// A field, or what stands in for it where it is not there.
pub open spec fn field_or(fields: Map<Seq<char>, Seq<char>>, key: Seq<char>, other: Seq<char>)
    -> Seq<char> {
    if fields.contains_key(key) {
        fields[key]
    } else {
        other
    }
}

/// What goes wrong first when the JSON fields of a job are read: the statistics,
/// then the progress, then the lag.
pub open spec fn job_fault(fields: Map<Seq<char>, Seq<char>>) -> Option<ErrorView> {
    let statistic = given(fields, "Statistic"@);
    let progress = given(fields, "Progress"@);
    let lag = given(fields, "Lag"@);
    if statistic is Some && statistic_of(statistic->0) is Err {
        Some(statistic_of(statistic->0)->Err_0)
    } else if progress is Some && progress_of(progress->0) is Err {
        Some(progress_of(progress->0)->Err_0)
    } else if lag is Some && lag_of(lag->0) is Err {
        Some(lag_of(lag->0)->Err_0)
    } else {
        None
    }
}

/// The job that the fields of a row describe, where its JSON fields can be read.
pub open spec fn job_of(fields: Map<Seq<char>, Seq<char>>) -> RoutineLoadJobView {
    RoutineLoadJobView {
        id: fields["Id"@],
        name: fields["Name"@],
        state: field_or(fields, "State"@, "UNKNOWN"@),
        db_name: field_or(fields, "DbName"@, ""@),
        table_name: field_or(fields, "TableName"@, ""@),
        create_time: field_or(fields, "CreateTime"@, ""@),
        pause_time: given(fields, "PauseTime"@),
        end_time: given(fields, "EndTime"@),
        current_task_num: present(fields, "CurrentTaskNum"@),
        data_source_type: present(fields, "DataSourceType"@),
        statistic: match given(fields, "Statistic"@) {
            Some(t) => match statistic_of(t) {
                Ok(s) => Some(s),
                Err(_) => None,
            },
            None => None,
        },
        progress: match given(fields, "Progress"@) {
            Some(t) => match progress_of(t) {
                Ok(p) => Some(p),
                Err(_) => None,
            },
            None => None,
        },
        lag: match given(fields, "Lag"@) {
            Some(t) => match lag_of(t) {
                Ok(l) => Some(l),
                Err(_) => None,
            },
            None => None,
        },
        error_log_urls: present(fields, "ErrorLogUrls"@),
        other_msg: present(fields, "OtherMsg"@),
    }
}

/// What reading a row block as a job gives: nothing for a block without an id or
/// a name; a failure where a JSON field cannot be read; else the job.
pub open spec fn parsed_job(fields: Map<Seq<char>, Seq<char>>) -> Result<
    Option<RoutineLoadJobView>,
    ErrorView,
> {
    if !fields.contains_key("Id"@) || !fields.contains_key("Name"@) {
        Ok(None)
    } else {
        match job_fault(fields) {
            Some(e) => Err(e),
            None => Ok(Some(job_of(fields))),
        }
    }
}

/// What reading row blocks as jobs gives, from the jobs read so far: the first
/// failure ends it.
pub open spec fn parsed_jobs(blocks: Seq<Seq<char>>, so_far: Seq<RoutineLoadJobView>) -> Result<
    Seq<RoutineLoadJobView>,
    ErrorView,
>
    decreases blocks.len(),
{
    if blocks.len() == 0 {
        Ok(so_far)
    } else {
        match parsed_job(block_fields(blocks[0])) {
            Err(e) => Err(e),
            Ok(Some(job)) => parsed_jobs(blocks.drop_first(), so_far.push(job)),
            Ok(None) => parsed_jobs(blocks.drop_first(), so_far),
        }
    }
}

/// A field that is there and does not say `NULL`.
fn given_field(fields: &Vec<(String, String)>, key: &str) -> (r: Option<String>)
    ensures
        opt_text(r) == given(field_map(pairs_of(fields@)), key@),
{
    match lookup(fields, key) {
        Some(v) => {
            if same_text(v.as_str(), "NULL") {
                None
            } else {
                Some(v)
            }
        },
        None => None,
    }
}

/// A field, or what stands in for it where it is not there.
fn field_or_default(fields: &Vec<(String, String)>, key: &str, other: &str) -> (r: String)
    ensures
        r@ == field_or(field_map(pairs_of(fields@)), key@, other@),
{
    match lookup(fields, key) {
        Some(v) => v,
        None => other.to_owned(),
    }
}

impl RoutineLoadJobManager {
    /// A manager that remembers nothing.
    pub fn new() -> (r: RoutineLoadJobManager)
        ensures
            r.state@ == empty_state(),
            r.state.well_formed(),
    {
        RoutineLoadJobManager { state: RoutineLoadState::new() }
    }

    /// Remembers the job that the operator chose, and its database.
    pub fn save_job_id(&mut self, job_id: String, job_name: String, database: String) -> (r:
        Result<(), CliError>)
        ensures
            r is Ok,
            final(self).state@ == (RoutineLoadStateView {
                current_job_id: Some(job_id@),
                current_job_name: Some(job_name@),
                last_database: Some(database@),
                ..old(self).state@
            }),
    {
        self.state.current_job_id = Some(job_id);
        self.state.current_job_name = Some(job_name);
        self.state.last_database = Some(database);
        Ok(())
    }

    /// The id of the job that was chosen.
    pub fn get_current_job_id(&self) -> (r: Option<String>)
        ensures
            opt_text(r) == self.state@.current_job_id,
    {
        clone_opt(&self.state.current_job_id)
    }

    /// The name of the job that was chosen.
    pub fn get_current_job_name(&self) -> (r: Option<String>)
        ensures
            opt_text(r) == self.state@.current_job_name,
    {
        clone_opt(&self.state.current_job_name)
    }

    /// The database of the job that was chosen.
    pub fn get_last_database(&self) -> (r: Option<String>)
        ensures
            opt_text(r) == self.state@.last_database,
    {
        clone_opt(&self.state.last_database)
    }

    /// Whether an id is that of a remembered job: it is made of digits, and a
    /// remembered job has it.
    pub fn validate_job_id(&self, job_id: &str) -> (r: Result<bool, CliError>)
        ensures
            r is Ok,
            r->Ok_0 == (all_digits(job_id@) && has_job(self.state@.job_cache, job_id@)),
    {
        let v = chars_of(job_id);
        let mut i: usize = 0;
        while i < v.len()
            invariant
                i <= v.len(),
                v@ == job_id@,
                forall|k: int| 0 <= k < i ==> is_digit(#[trigger] v@[k]),
            decreases v.len() - i,
        {
            let n: u32 = v[i] as u32;
            if n < 0x30 || n > 0x39 {
                assert(!is_digit(v@[i as int]));
                return Ok(false);
            }
            i += 1;
        }
        let mut j: usize = 0;
        let ghost cache = self.state@.job_cache;
        assert(all_digits(job_id@));
        while j < self.state.job_cache.len()
            invariant
                j <= self.state.job_cache.len(),
                all_digits(job_id@),
                cache == self.state@.job_cache,
                forall|k: int| 0 <= k < j ==> cache[k].id != job_id@,
            decreases self.state.job_cache.len() - j,
        {
            if same_text(self.state.job_cache[j].id.as_str(), job_id) {
                assert(cache[j as int].id == job_id@);
                return Ok(true);
            }
            j += 1;
        }
        Ok(false)
    }

    /// Forgets everything.
    pub fn clear_state(&mut self) -> (r: Result<(), CliError>)
        ensures
            r is Ok,
            final(self).state@ == empty_state(),
            final(self).state.well_formed(),
    {
        self.state.clear();
        Ok(())
    }

    /// Remembers the jobs that were listed, in place of those remembered before;
    /// of two jobs with one id the later one is remembered.
    pub fn update_job_cache(&mut self, jobs: Vec<RoutineLoadJob>) -> (r: Result<(), CliError>)
        ensures
            r is Ok,
            final(self).state@ == (RoutineLoadStateView {
                job_cache: latest_jobs(job_views(jobs@)),
                ..old(self).state@
            }),
            final(self).state.well_formed(),
    {
        let mut cache: Vec<RoutineLoadJob> = Vec::new();
        let ghost all = job_views(jobs@);
        let mut i: usize = 0;
        assert(all.take(0) =~= Seq::<RoutineLoadJobView>::empty());
        assert(job_views(cache@) =~= seq![]);
        while i < jobs.len()
            invariant
                i <= jobs.len(),
                all == job_views(jobs@),
                job_views(cache@) == latest_jobs(all.take(i as int)),
            decreases jobs.len() - i,
        {
            let ghost part = all.take(i + 1);
            assert(part.drop_last() == all.take(i as int));
            assert(part.last() == jobs@[i as int]@);
            let mut kept: Vec<RoutineLoadJob> = Vec::new();
            let ghost held = job_views(cache@);
            let mut k: usize = 0;
            assert(held.take(0) =~= Seq::<RoutineLoadJobView>::empty());
            assert(job_views(kept@) =~= seq![]);
            while k < cache.len()
                invariant
                    k <= cache.len(),
                    i < jobs.len(),
                    held == job_views(cache@),
                    job_views(kept@) == without_id(held.take(k as int), jobs@[i as int]@.id),
                decreases cache.len() - k,
            {
                let ghost sub = held.take(k + 1);
                assert(sub.drop_last() == held.take(k as int));
                assert(sub.last() == cache@[k as int]@);
                if !same_text(cache[k].id.as_str(), jobs[i].id.as_str()) {
                    let ghost before = job_views(kept@);
                    kept.push(cache[k].clone());
                    assert(job_views(kept@) =~= before.push(cache@[k as int]@));
                }
                k += 1;
            }
            assert(held.take(cache.len() as int) == held);
            let ghost before = job_views(kept@);
            kept.push(jobs[i].clone());
            assert(job_views(kept@) =~= before.push(jobs@[i as int]@));
            cache = kept;
            i += 1;
        }
        assert(all.take(jobs.len() as int) == all);
        proof {
            lemma_latest_jobs_distinct(all);
        }
        self.state.job_cache = cache;
        Ok(())
    }

    /// The jobs that are remembered.
    pub fn get_job_cache(&self) -> (r: Result<Vec<RoutineLoadJob>, CliError>)
        ensures
            r is Ok,
            job_views(r->Ok_0@) == self.state@.job_cache,
    {
        Ok(clone_jobs(&self.state.job_cache))
    }

    /// Reads the jobs from the database client's vertical output.
    pub fn parse_routine_load_output(&self, output: &str) -> (r: Result<
        Vec<RoutineLoadJob>,
        CliError,
    >)
        ensures
            match r {
                Ok(jobs) => parsed_jobs(blocks_of(output@), seq![]) == Ok::<_, ErrorView>(
                    job_views(jobs@),
                ),
                Err(e) => parsed_jobs(blocks_of(output@), seq![]) == Err::<
                    Seq<RoutineLoadJobView>,
                    _,
                >(e@),
            },
    {
        let blocks = split_into_blocks(output);
        let mut jobs: Vec<RoutineLoadJob> = Vec::new();
        let ghost all = texts(blocks@);
        let mut i: usize = 0;
        assert(all.skip(0) == all);
        assert(job_views(jobs@) =~= seq![]);
        while i < blocks.len()
            invariant
                i <= blocks.len(),
                all == texts(blocks@),
                all == blocks_of(output@),
                parsed_jobs(all, seq![]) == parsed_jobs(all.skip(i as int), job_views(jobs@)),
            decreases blocks.len() - i,
        {
            assert(all.skip(i as int)[0] == blocks@[i as int]@);
            assert(all.skip(i as int).drop_first() == all.skip(i + 1));
            match self.parse_job_block(blocks[i].as_str()) {
                Err(e) => {
                    return Err(e);
                },
                Ok(Some(job)) => {
                    let ghost before = job_views(jobs@);
                    let ghost added = job@;
                    jobs.push(job);
                    assert(job_views(jobs@) =~= before.push(added));
                },
                Ok(None) => {},
            }
            i += 1;
        }
        Ok(jobs)
    }

    /// Reads a job from a row block.
    pub fn parse_job_block(&self, block: &str) -> (r: Result<Option<RoutineLoadJob>, CliError>)
        ensures
            match r {
                Ok(Some(job)) => parsed_job(block_fields(block@)) == Ok::<_, ErrorView>(
                    Some(job@),
                ),
                Ok(None) => parsed_job(block_fields(block@)) == Ok::<
                    Option<RoutineLoadJobView>,
                    ErrorView,
                >(None),
                Err(e) => parsed_job(block_fields(block@)) == Err::<
                    Option<RoutineLoadJobView>,
                    _,
                >(e@),
            },
    {
        let fields = parse_key_value_pairs(block);
        let id = match lookup(&fields, "Id") {
            Some(v) => v,
            None => {
                return Ok(None);
            },
        };
        let name = match lookup(&fields, "Name") {
            Some(v) => v,
            None => {
                return Ok(None);
            },
        };
        let statistic = match given_field(&fields, "Statistic") {
            Some(t) => match self.parse_statistic(t.as_str()) {
                Ok(s) => Some(s),
                Err(e) => {
                    return Err(e);
                },
            },
            None => None,
        };
        let progress = match given_field(&fields, "Progress") {
            Some(t) => match self.parse_progress(t.as_str()) {
                Ok(p) => Some(p),
                Err(e) => {
                    return Err(e);
                },
            },
            None => None,
        };
        let lag = match given_field(&fields, "Lag") {
            Some(t) => match self.parse_lag(t.as_str()) {
                Ok(l) => Some(l),
                Err(e) => {
                    return Err(e);
                },
            },
            None => None,
        };
        let job = RoutineLoadJob {
            id,
            name,
            state: field_or_default(&fields, "State", "UNKNOWN"),
            db_name: field_or_default(&fields, "DbName", ""),
            table_name: field_or_default(&fields, "TableName", ""),
            create_time: field_or_default(&fields, "CreateTime", ""),
            pause_time: given_field(&fields, "PauseTime"),
            end_time: given_field(&fields, "EndTime"),
            current_task_num: lookup(&fields, "CurrentTaskNum"),
            data_source_type: lookup(&fields, "DataSourceType"),
            statistic,
            progress,
            lag,
            error_log_urls: lookup(&fields, "ErrorLogUrls"),
            other_msg: lookup(&fields, "OtherMsg"),
        };
        Ok(Some(job))
    }

    /// Reads the statistics of a job from their JSON text.
    pub fn parse_statistic(&self, stat_str: &str) -> (r: Result<JobStatistic, CliError>)
        ensures
            match r {
                Ok(s) => statistic_of(stat_str@) == Ok::<_, ErrorView>(s),
                Err(e) => statistic_of(stat_str@) == Err::<JobStatistic, _>(e@),
            },
    {
        match complaint_of(stat_str) {
            Some(e) => {
                return Err(
                    CliError::ToolExecutionFailed(concat("Failed to parse statistic: ", e.as_str())),
                );
            },
            None => {},
        }
        Ok(
            JobStatistic {
                received_bytes: counter(member_u64_of(stat_str, "receivedBytes")),
                loaded_rows: counter(member_u64_of(stat_str, "loadedRows")),
                error_rows: counter(member_u64_of(stat_str, "errorRows")),
                committed_task_num: counter(member_u64_of(stat_str, "committedTaskNum")),
                load_rows_rate: counter(member_u64_of(stat_str, "loadRowsRate")),
                aborted_task_num: counter(member_u64_of(stat_str, "abortedTaskNum")),
                total_rows: counter(member_u64_of(stat_str, "totalRows")),
                unselected_rows: counter(member_u64_of(stat_str, "unselectedRows")),
                received_bytes_rate: counter(member_u64_of(stat_str, "receivedBytesRate")),
                task_execute_time_ms: counter(member_u64_of(stat_str, "taskExecuteTimeMs")),
            },
        )
    }

    /// Reads the progress of a job from its JSON text.
    pub fn parse_progress(&self, prog_str: &str) -> (r: Result<Vec<(String, String)>, CliError>)
        ensures
            match r {
                Ok(p) => progress_of(prog_str@) == Ok::<_, ErrorView>(text_pairs(p@)),
                Err(e) => progress_of(prog_str@) == Err::<Seq<(Seq<char>, Seq<char>)>, _>(e@),
            },
    {
        match text_entries_of(prog_str) {
            Ok(p) => Ok(p),
            Err(e) => Err(
                CliError::ToolExecutionFailed(concat("Failed to parse progress: ", e.as_str())),
            ),
        }
    }

    /// Reads the lag of a job from its JSON text.
    pub fn parse_lag(&self, lag_str: &str) -> (r: Result<Vec<(String, i64)>, CliError>)
        ensures
            match r {
                Ok(l) => lag_of(lag_str@) == Ok::<_, ErrorView>(number_pairs(l@)),
                Err(e) => lag_of(lag_str@) == Err::<Seq<(Seq<char>, i64)>, _>(e@),
            },
    {
        match number_entries_of(lag_str) {
            Ok(l) => Ok(l),
            Err(e) => Err(CliError::ToolExecutionFailed(concat("Failed to parse lag: ", e.as_str()))),
        }
    }
}

} // verus!
