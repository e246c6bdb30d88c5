use crate::error::{CliError, ErrorView};
use crate::text::{
    chars_of, concat, concat3, decimal_text, same_text, texts, trim, trimmed, u64_to_string,
};
use crate::tools::fe::routine_load::models::{job_views, RoutineLoadJob, RoutineLoadJobView};
use crate::tools::Tool;
use vstd::prelude::*;

verus! {

/// Looks for what is wrong with the chosen routine load job.
#[derive(Debug, Clone, Copy, PartialEq, Eq, Structural)]
pub struct RoutineLoadErrorChecker;

impl Tool for RoutineLoadErrorChecker {
    open spec fn name_text(&self) -> Seq<char> {
        "routine_load_error_checker"@
    }

    open spec fn description_text(&self) -> Seq<char> {
        "Check for errors in Routine Load job"@
    }

    open spec fn needs_pid(&self) -> bool {
        false
    }

    fn name(&self) -> (r: String) {
        "routine_load_error_checker".to_owned()
    }

    fn description(&self) -> (r: String) {
        "Check for errors in Routine Load job".to_owned()
    }

    fn requires_pid(&self) -> (r: bool) {
        false
    }
}

/// What is found wrong with the state of a job: it neither runs nor waits to be
/// scheduled.
pub open spec fn state_finding(job: RoutineLoadJobView) -> Seq<Seq<char>> {
    if job.state != "RUNNING"@ && job.state != "NEED_SCHEDULE"@ {
        seq!["State is "@ + job.state]
    } else {
        seq![]
    }
}

/// What is found wrong with the counters of a job: rows in error, rows not
/// selected.
pub open spec fn counter_findings(job: RoutineLoadJobView) -> Seq<Seq<char>> {
    match job.statistic {
        Some(stat) => (if stat.error_rows > 0 {
            seq!["Error rows: "@ + decimal_text(stat.error_rows as nat)]
        } else {
            seq![]
        }) + (if stat.unselected_rows > 0 {
            seq!["Unselected rows: "@ + decimal_text(stat.unselected_rows as nat)]
        } else {
            seq![]
        }),
        None => seq![],
    }
}

/// What is found of the error logs of a job: where they are, if the job names any.
pub open spec fn log_finding(job: RoutineLoadJobView) -> Seq<Seq<char>> {
    match job.error_log_urls {
        Some(urls) => if trimmed(urls).len() > 0 && trimmed(urls) != "NULL"@ {
            seq!["Error log URLs: "@ + trimmed(urls)]
        } else {
            seq![]
        },
        None => seq![],
    }
}

/// All that is found wrong with a job.
pub open spec fn findings_of(job: RoutineLoadJobView) -> Seq<Seq<char>> {
    state_finding(job) + counter_findings(job) + log_finding(job)
}

/// The first job of a list that has the id.
pub open spec fn job_with_id(jobs: Seq<RoutineLoadJobView>, id: Seq<char>) -> Option<
    RoutineLoadJobView,
>
    decreases jobs.len(),
{
    if jobs.len() == 0 {
        None
    } else if jobs[0].id == id {
        Some(jobs[0])
    } else {
        job_with_id(jobs.drop_first(), id)
    }
}

impl RoutineLoadErrorChecker {
    /// The job to check among the jobs of the database; it is a failure where
    /// none has the id.
    pub fn find_job(jobs: Vec<RoutineLoadJob>, job_id: &str, database: &str) -> (r: Result<
        RoutineLoadJob,
        CliError,
    >)
        ensures
            match job_with_id(job_views(jobs@), job_id@) {
                Some(job) => r is Ok && r->Ok_0@ == job,
                None => r is Err && r->Err_0@ == ErrorView::InvalidInput(
                    "Job "@ + job_id@ + " not found in database "@ + database@,
                ),
            },
    {
        let ghost all = job_views(jobs@);
        let mut i: usize = 0;
        assert(all.skip(0) == all);
        while i < jobs.len()
            invariant
                i <= jobs.len(),
                all == job_views(jobs@),
                job_with_id(all, job_id@) == job_with_id(all.skip(i as int), job_id@),
            decreases jobs.len() - i,
        {
            assert(all.skip(i as int)[0] == jobs@[i as int]@);
            assert(all.skip(i as int).drop_first() == all.skip(i + 1));
            if same_text(jobs[i].id.as_str(), job_id) {
                return Ok(jobs[i].clone());
            }
            i += 1;
        }
        let head = concat3("Job ", job_id, " not found in database ");
        Err(CliError::InvalidInput(concat(head.as_str(), database)))
    }

    /// All that is found wrong with a job.
    pub fn execute(&self, job: &RoutineLoadJob) -> (r: Vec<String>)
        ensures
            texts(r@) == findings_of(job@),
    {
        let mut findings: Vec<String> = Vec::new();
        if !same_text(job.state.as_str(), "RUNNING") && !same_text(
            job.state.as_str(),
            "NEED_SCHEDULE",
        ) {
            findings.push(concat("State is ", job.state.as_str()));
        }
        assert(texts(findings@) =~= state_finding(job@));
        match &job.statistic {
            Some(stat) => {
                if stat.error_rows > 0 {
                    let n = u64_to_string(stat.error_rows);
                    findings.push(concat("Error rows: ", n.as_str()));
                }
                if stat.unselected_rows > 0 {
                    let n = u64_to_string(stat.unselected_rows);
                    findings.push(concat("Unselected rows: ", n.as_str()));
                }
            },
            None => {},
        }
        assert(texts(findings@) =~= state_finding(job@) + counter_findings(job@));
        match &job.error_log_urls {
            Some(urls) => {
                let t = trim(urls.as_str());
                if chars_of(t.as_str()).len() > 0 && !same_text(t.as_str(), "NULL") {
                    findings.push(concat("Error log URLs: ", t.as_str()));
                }
            },
            None => {},
        }
        assert(texts(findings@) =~= findings_of(job@));
        findings
    }
}

} // verus!
