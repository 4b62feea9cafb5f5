//! The run of one job: reports while the search goes on, and its end.
//!
//! A run reports until it sees the flag raised. Only then is the end of the search noted,
//! once, so no report comes after it.

use vstd::prelude::*;

use crate::api::{finish_job, finished_job, progressed_job, record_progress, with_job};
use crate::jobs::{jobs_wf, AppState, Jobs};
use crate::models::{JobProgress, ProgressModel};
use crate::vanity::VanityResult;

verus! {

/// What a run is at.
#[derive(Clone, Copy, PartialEq, Eq, Structural, Debug)]
pub enum RunPhase {
    /// It reports progress from time to time.
    Reporting,
    /// It has seen that a key pair was found, and waits for the search to end.
    Awaiting,
    /// The end of the search is noted.
    Finished,
}

/// What happens in the course of a run.
pub enum RunEvent {
    /// It is time for a report: whether the flag is raised, and what there is to report.
    Tick(bool, ProgressModel),
    /// The search has ended: its outcome, the time it took in seconds and nanoseconds, and
    /// the rate.
    Ended(Option<VanityResult>, u64, u32, Seq<char>),
}

/// The state of a run.
#[verifier::ext_equal]
pub struct RunModel {
    pub job_id: Seq<char>,
    pub phase: RunPhase,
}

impl RunModel {
    /// The state after an event.
    pub open spec fn after(self, event: RunEvent) -> RunModel {
        match (self.phase, event) {
            (RunPhase::Reporting, RunEvent::Tick(found, _)) => if found {
                RunModel { phase: RunPhase::Awaiting, ..self }
            } else {
                self
            },
            (RunPhase::Awaiting, RunEvent::Ended(_, _, _, _)) => RunModel {
                phase: RunPhase::Finished,
                ..self
            },
            _ => self,
        }
    }

    /// The jobs after an event.
    pub open spec fn effect(self, jobs: Jobs, event: RunEvent) -> Jobs {
        match (self.phase, event) {
            (RunPhase::Reporting, RunEvent::Tick(found, progress)) => if found {
                jobs
            } else {
                with_job(jobs, self.job_id, progressed_job(jobs[self.job_id], progress))
            },
            (RunPhase::Awaiting, RunEvent::Ended(outcome, secs, nanos, rate)) => with_job(
                jobs,
                self.job_id,
                finished_job(jobs[self.job_id], outcome, secs, nanos, rate),
            ),
            _ => jobs,
        }
    }
}

/// What there is to report: nothing more once a key pair was found, else how far the
/// search has come.
pub fn next_report(
    found: bool,
    attempts: u64,
    elapsed_secs: u64,
    elapsed_subsec_nanos: u32,
    rate: String,
) -> (res: Option<JobProgress>)
    ensures
        res is None <==> found,
        res matches Some(progress) ==> progress@ == (ProgressModel {
            attempts,
            elapsed_secs,
            elapsed_subsec_nanos,
            rate: rate@,
        }),
{
    if found {
        None
    } else {
        Some(JobProgress { attempts, elapsed_secs, elapsed_subsec_nanos, rate })
    }
}

/// The run of a job.
pub struct JobRun {
    job_id: String,
    phase: RunPhase,
}

impl View for JobRun {
    type V = RunModel;

    closed spec fn view(&self) -> RunModel {
        RunModel { job_id: self.job_id@, phase: self.phase }
    }
}

impl JobRun {
    /// The run of the job with the given identifier, from its start.
    pub fn new(job_id: String) -> (res: JobRun)
        ensures
            res@ == (RunModel { job_id: job_id@, phase: RunPhase::Reporting }),
    {
        JobRun { job_id, phase: RunPhase::Reporting }
    }

    /// What the run is at.
    pub fn phase(&self) -> (res: RunPhase)
        ensures
            res == self@.phase,
    {
        self.phase
    }

    /// Reports progress, unless the flag is raised: then there are no further reports.
    pub fn tick(
        &mut self,
        state: &mut AppState,
        found: bool,
        attempts: u64,
        elapsed_secs: u64,
        elapsed_subsec_nanos: u32,
        rate: String,
    )
        ensures
            ({
                let progress = ProgressModel {
                    attempts,
                    elapsed_secs,
                    elapsed_subsec_nanos,
                    rate: rate@,
                };
                let event = RunEvent::Tick(found, progress);
                &&& final(self)@ == old(self)@.after(event)
                &&& final(state).jobs@ == old(self)@.effect(old(state).jobs@, event)
            }),
            final(state).max_suffix_len_sync == old(state).max_suffix_len_sync,
            final(state).max_suffix_len_async == old(state).max_suffix_len_async,
            jobs_wf(old(state).jobs@) ==> jobs_wf(final(state).jobs@),
    {
        if let RunPhase::Reporting = self.phase {
            match next_report(found, attempts, elapsed_secs, elapsed_subsec_nanos, rate) {
                Some(progress) => {
                    record_progress(state, self.job_id.as_str(), progress);
                },
                None => {
                    self.phase = RunPhase::Awaiting;
                },
            }
        }
    }

    /// Notes the end of the search, if the run waits for it.
    pub fn conclude(
        &mut self,
        state: &mut AppState,
        outcome: Option<VanityResult>,
        elapsed_secs: u64,
        elapsed_subsec_nanos: u32,
        rate: String,
    )
        ensures
            ({
                let event = RunEvent::Ended(outcome, elapsed_secs, elapsed_subsec_nanos, rate@);
                &&& final(self)@ == old(self)@.after(event)
                &&& final(state).jobs@ == old(self)@.effect(old(state).jobs@, event)
            }),
            final(state).max_suffix_len_sync == old(state).max_suffix_len_sync,
            final(state).max_suffix_len_async == old(state).max_suffix_len_async,
            jobs_wf(old(state).jobs@) && (old(state).jobs@.contains_key(old(self)@.job_id)
                ==> old(state).jobs@[old(self)@.job_id].status.is_active()) ==> jobs_wf(
                final(state).jobs@,
            ),
    {
        if let RunPhase::Awaiting = self.phase {
            finish_job(
                state,
                self.job_id.as_str(),
                outcome,
                elapsed_secs,
                elapsed_subsec_nanos,
                rate,
            );
            self.phase = RunPhase::Finished;
        }
    }
}

} // verus!
