use crate::text::{clone_opt, opt_text};
use crate::tools::json::{number_pairs, text_pairs};
use vstd::prelude::*;

verus! {

/// The counters of a routine load job.
#[derive(Debug, Clone, Copy, PartialEq, Eq, Structural)]
pub struct JobStatistic {
    pub received_bytes: u64,
    pub loaded_rows: u64,
    pub error_rows: u64,
    pub committed_task_num: u64,
    pub load_rows_rate: u64,
    pub aborted_task_num: u64,
    pub total_rows: u64,
    pub unselected_rows: u64,
    pub received_bytes_rate: u64,
    pub task_execute_time_ms: u64,
}

/// A routine load job, as the database shows it.
#[derive(Debug)]
pub struct RoutineLoadJob {
    pub id: String,
    pub name: String,
    pub state: String,
    pub db_name: String,
    pub table_name: String,
    pub create_time: String,
    pub pause_time: Option<String>,
    pub end_time: Option<String>,
    pub current_task_num: Option<String>,
    pub data_source_type: Option<String>,
    pub statistic: Option<JobStatistic>,
    pub progress: Option<Vec<(String, String)>>,
    pub lag: Option<Vec<(String, i64)>>,
    pub error_log_urls: Option<String>,
    pub other_msg: Option<String>,
}

/// What a `RoutineLoadJob` holds, as plain values.
pub struct RoutineLoadJobView {
    pub id: Seq<char>,
    pub name: Seq<char>,
    pub state: Seq<char>,
    pub db_name: Seq<char>,
    pub table_name: Seq<char>,
    pub create_time: Seq<char>,
    pub pause_time: Option<Seq<char>>,
    pub end_time: Option<Seq<char>>,
    pub current_task_num: Option<Seq<char>>,
    pub data_source_type: Option<Seq<char>>,
    pub statistic: Option<JobStatistic>,
    pub progress: Option<Seq<(Seq<char>, Seq<char>)>>,
    pub lag: Option<Seq<(Seq<char>, i64)>>,
    pub error_log_urls: Option<Seq<char>>,
    pub other_msg: Option<Seq<char>>,
}

impl View for RoutineLoadJob {
    type V = RoutineLoadJobView;

    open spec fn view(&self) -> RoutineLoadJobView {
        RoutineLoadJobView {
            id: self.id@,
            name: self.name@,
            state: self.state@,
            db_name: self.db_name@,
            table_name: self.table_name@,
            create_time: self.create_time@,
            pause_time: opt_text(self.pause_time),
            end_time: opt_text(self.end_time),
            current_task_num: opt_text(self.current_task_num),
            data_source_type: opt_text(self.data_source_type),
            statistic: self.statistic,
            progress: match self.progress {
                Some(x) => Some(text_pairs(x@)),
                None => None,
            },
            lag: match self.lag {
                Some(x) => Some(number_pairs(x@)),
                None => None,
            },
            error_log_urls: opt_text(self.error_log_urls),
            other_msg: opt_text(self.other_msg),
        }
    }
}

/// What a session remembers of routine load jobs: the job that was chosen,
/// and the jobs that were last listed. No two remembered jobs have one id.
#[derive(Debug)]
pub struct RoutineLoadState {
    pub current_job_id: Option<String>,
    pub current_job_name: Option<String>,
    pub last_database: Option<String>,
    pub job_cache: Vec<RoutineLoadJob>,
}

/// What a `RoutineLoadState` holds, as plain values.
pub struct RoutineLoadStateView {
    pub current_job_id: Option<Seq<char>>,
    pub current_job_name: Option<Seq<char>>,
    pub last_database: Option<Seq<char>>,
    pub job_cache: Seq<RoutineLoadJobView>,
}

impl View for RoutineLoadState {
    type V = RoutineLoadStateView;

    open spec fn view(&self) -> RoutineLoadStateView {
        RoutineLoadStateView {
            current_job_id: opt_text(self.current_job_id),
            current_job_name: opt_text(self.current_job_name),
            last_database: opt_text(self.last_database),
            job_cache: Seq::new(self.job_cache@.len(), |i: int| self.job_cache@[i]@),
        }
    }
}

/// A copy of a vector of pairs of strings.
pub fn clone_text_pairs(v: &Vec<(String, String)>) -> (r: Vec<(String, String)>)
    ensures
        text_pairs(r@) == text_pairs(v@),
{
    let mut out: Vec<(String, String)> = Vec::new();
    let mut i: usize = 0;
    while i < v.len()
        invariant
            i <= v.len(),
            out@.len() == i,
            forall|k: int| 0 <= k < i ==> out@[k].0@ == v@[k].0@ && out@[k].1@ == v@[k].1@,
        decreases v.len() - i,
    {
        out.push((v[i].0.clone(), v[i].1.clone()));
        i += 1;
    }
    assert(text_pairs(out@) =~= text_pairs(v@));
    out
}

/// A copy of a vector of strings with numbers.
pub fn clone_number_pairs(v: &Vec<(String, i64)>) -> (r: Vec<(String, i64)>)
    ensures
        number_pairs(r@) == number_pairs(v@),
{
    let mut out: Vec<(String, i64)> = Vec::new();
    let mut i: usize = 0;
    while i < v.len()
        invariant
            i <= v.len(),
            out@.len() == i,
            forall|k: int| 0 <= k < i ==> out@[k].0@ == v@[k].0@ && out@[k].1 == v@[k].1,
        decreases v.len() - i,
    {
        out.push((v[i].0.clone(), v[i].1));
        i += 1;
    }
    assert(number_pairs(out@) =~= number_pairs(v@));
    out
}

impl Clone for RoutineLoadJob {
    fn clone(&self) -> (r: RoutineLoadJob)
        ensures
            r@ == self@,
    {
        RoutineLoadJob {
            id: self.id.clone(),
            name: self.name.clone(),
            state: self.state.clone(),
            db_name: self.db_name.clone(),
            table_name: self.table_name.clone(),
            create_time: self.create_time.clone(),
            pause_time: clone_opt(&self.pause_time),
            end_time: clone_opt(&self.end_time),
            current_task_num: clone_opt(&self.current_task_num),
            data_source_type: clone_opt(&self.data_source_type),
            statistic: self.statistic,
            progress: match &self.progress {
                Some(p) => Some(clone_text_pairs(p)),
                None => None,
            },
            lag: match &self.lag {
                Some(l) => Some(clone_number_pairs(l)),
                None => None,
            },
            error_log_urls: clone_opt(&self.error_log_urls),
            other_msg: clone_opt(&self.other_msg),
        }
    }
}

/// What a vector of jobs holds.
pub open spec fn job_views(v: Seq<RoutineLoadJob>) -> Seq<RoutineLoadJobView> {
    Seq::new(v.len(), |i: int| v[i]@)
}

/// A copy of a vector of jobs.
pub fn clone_jobs(v: &Vec<RoutineLoadJob>) -> (r: Vec<RoutineLoadJob>)
    ensures
        job_views(r@) == job_views(v@),
{
    let mut out: Vec<RoutineLoadJob> = Vec::new();
    let mut i: usize = 0;
    while i < v.len()
        invariant
            i <= v.len(),
            out@.len() == i,
            forall|k: int| 0 <= k < i ==> out@[k]@ == v@[k]@,
        decreases v.len() - i,
    {
        out.push(v[i].clone());
        i += 1;
    }
    assert(job_views(out@) =~= job_views(v@));
    out
}

/// Whether no two jobs of a list have one id.
pub open spec fn distinct_ids(jobs: Seq<RoutineLoadJobView>) -> bool {
    forall|i: int, j: int| 0 <= i < j < jobs.len() ==> jobs[i].id != jobs[j].id
}

/// Whether a list of jobs holds a job with the id.
pub open spec fn has_job(jobs: Seq<RoutineLoadJobView>, id: Seq<char>) -> bool {
    exists|i: int| 0 <= i < jobs.len() && jobs[i].id == id
}

/// The state of a session that remembers nothing.
pub open spec fn empty_state() -> RoutineLoadStateView {
    RoutineLoadStateView {
        current_job_id: None,
        current_job_name: None,
        last_database: None,
        job_cache: seq![],
    }
}

impl RoutineLoadState {
    /// Whether no two remembered jobs have one id.
    pub open spec fn well_formed(&self) -> bool {
        distinct_ids(self@.job_cache)
    }

    /// The state of a session that remembers nothing.
    pub fn new() -> (r: RoutineLoadState)
        ensures
            r@ == empty_state(),
            r.well_formed(),
    {
        let r = RoutineLoadState {
            current_job_id: None,
            current_job_name: None,
            last_database: None,
            job_cache: Vec::new(),
        };
        assert(r@.job_cache =~= seq![]);
        r
    }

    /// Forgets everything.
    pub fn clear(&mut self)
        ensures
            final(self)@ == empty_state(),
            final(self).well_formed(),
    {
        self.current_job_id = None;
        self.current_job_name = None;
        self.last_database = None;
        self.job_cache = Vec::new();
        assert(self@.job_cache =~= seq![]);
    }
}

impl Default for RoutineLoadState {
    fn default() -> (r: RoutineLoadState)
        ensures
            r@ == empty_state(),
            r.well_formed(),
    {
        RoutineLoadState::new()
    }
}

} // verus!
