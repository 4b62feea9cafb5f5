//! What holds over any series of calls.

use vstd::prelude::*;

use crate::api::{
    async_refusal, change_of_active_jobs, delete_refusal, finished_job, progressed_job,
    status_answer, submitted_job, with_job,
};
use crate::jobs::{active_jobs, jobs_wf, Jobs};
use crate::laws::deletion_keeps_active_jobs;
use crate::models::{JobStatus, ProgressModel, Refusal, RequestModel};
use crate::run::{RunEvent, RunModel, RunPhase};
use crate::search::{counter_never_falls, Move, SearchModel};
use crate::vanity::VanityResult;

verus! {

/// A call that may change the jobs.
pub enum Call {
    /// A job is submitted, under an identifier and a limit for the suffix.
    Submit(RequestModel, Seq<char>, usize),
    /// Progress is noted.
    Progress(Seq<char>, ProgressModel),
    /// The end of a search is noted: the outcome, the time it took, and the rate.
    Finish(Seq<char>, Option<VanityResult>, u64, u32, Seq<char>),
    /// A job is to be deleted.
    Delete(Seq<char>),
}

/// The jobs after a call.
pub open spec fn after_call(jobs: Jobs, call: Call) -> Jobs {
    match call {
        Call::Submit(request, id, limit) => if async_refusal(
            request,
            limit,
            active_jobs(jobs).len(),
        ) is None {
            jobs.insert(id, submitted_job(id))
        } else {
            jobs
        },
        Call::Progress(id, progress) => with_job(jobs, id, progressed_job(jobs[id], progress)),
        Call::Finish(id, outcome, secs, nanos, rate) => with_job(
            jobs,
            id,
            finished_job(jobs[id], outcome, secs, nanos, rate),
        ),
        Call::Delete(id) => if delete_refusal(jobs, id) is None {
            jobs.remove(id)
        } else {
            jobs
        },
    }
}

/// The jobs after several calls.
pub open spec fn after_calls(jobs: Jobs, calls: Seq<Call>) -> Jobs
    decreases calls.len(),
{
    if calls.len() == 0 {
        jobs
    } else {
        after_call(after_calls(jobs, calls.drop_last()), calls.last())
    }
}

/// The call submits the job, or notes its progress or its end.
pub open spec fn is_about(call: Call, id: Seq<char>) -> bool {
    match call {
        Call::Submit(_, other, _) => other == id,
        Call::Progress(other, _) => other == id,
        Call::Finish(other, _, _, _, _) => other == id,
        Call::Delete(_) => false,
    }
}

/// No call deletes the job.
pub open spec fn no_deletion(jobs: Jobs, calls: Seq<Call>, id: Seq<char>) -> bool {
    forall|k: int|
        0 <= k < calls.len() && #[trigger] calls[k] == Call::Delete(id) ==> delete_refusal(
            after_calls(jobs, calls.take(k)),
            id,
        ) is Some
}

/// If the call notes the end of a search, then of a job that is active, or gone.
pub open spec fn ends_active_job(jobs: Jobs, call: Call) -> bool {
    call matches Call::Finish(id, _, _, _, _) ==> jobs.contains_key(id)
        ==> jobs[id].status.is_active()
}

/// The end of a search is only noted of jobs that are active, or gone.
pub open spec fn ends_in_turn(jobs: Jobs, calls: Seq<Call>) -> bool {
    forall|k: int|
        0 <= k < calls.len() ==> ends_active_job(
            after_calls(jobs, calls.take(k)),
            #[trigger] calls[k],
        )
}

/// Whatever is called, a job that was submitted is answered, under its own identifier, as
/// long as no delete of it succeeds.
pub proof fn submitted_job_is_answered(jobs: Jobs, calls: Seq<Call>, id: Seq<char>)
    requires
        jobs.contains_key(id),
        jobs[id].job_id == id,
        no_deletion(jobs, calls, id),
    ensures
        status_answer(after_calls(jobs, calls), id) matches Ok(job) && job.job_id == id,
    decreases calls.len(),
{
    if calls.len() > 0 {
        let init = calls.drop_last();
        assert(calls[calls.len() - 1] == calls.last());
        assert(calls.take(calls.len() - 1) == init);
        assert forall|k: int|
            0 <= k < init.len() && #[trigger] init[k] == Call::Delete(id) implies delete_refusal(
            after_calls(jobs, init.take(k)),
            id,
        ) is Some by {
            assert(calls[k] == init[k]);
            assert(calls.take(k) == init.take(k));
        }
        submitted_job_is_answered(jobs, init, id);
    }
}

/// Whatever is called after a job was deleted, it is not found, unless it is submitted anew
/// under the same identifier.
pub proof fn deleted_job_stays_gone(jobs: Jobs, calls: Seq<Call>, id: Seq<char>)
    requires
        delete_refusal(jobs, id) is None,
        forall|k: int|
            0 <= k < calls.len() ==> !(#[trigger] calls[k] matches Call::Submit(_, other, _)
                && other == id),
    ensures
        status_answer(after_calls(after_call(jobs, Call::Delete(id)), calls), id) matches Err(
            refusal,
        ) && refusal.status == Refusal::NotFound,
    decreases calls.len(),
{
    if calls.len() > 0 {
        let init = calls.drop_last();
        assert(calls[calls.len() - 1] == calls.last());
        assert forall|k: int| 0 <= k < init.len() implies !(#[trigger] init[k] matches Call::Submit(
            _,
            other,
            _,
        ) && other == id) by {
            assert(calls[k] == init[k]);
        }
        deleted_job_stays_gone(jobs, init, id);
    }
}

/// Whatever is called, every job stands under its own identifier, has a key pair exactly
/// if it is completed and an error exactly if it failed, and no more than the allowed
/// number of jobs are active; provided that ends are noted of active jobs only.
pub proof fn jobs_stay_well_formed(jobs: Jobs, calls: Seq<Call>)
    requires
        jobs_wf(jobs),
        ends_in_turn(jobs, calls),
    ensures
        jobs_wf(after_calls(jobs, calls)),
    decreases calls.len(),
{
    if calls.len() > 0 {
        let init = calls.drop_last();
        let before = after_calls(jobs, init);
        assert(calls[calls.len() - 1] == calls.last());
        assert(calls.take(calls.len() - 1) == init);
        assert forall|k: int| 0 <= k < init.len() implies ends_active_job(
            after_calls(jobs, init.take(k)),
            #[trigger] init[k],
        ) by {
            assert(calls[k] == init[k]);
            assert(calls.take(k) == init.take(k));
        }
        jobs_stay_well_formed(jobs, init);
        match calls.last() {
            Call::Submit(request, id, limit) => {
                change_of_active_jobs(before, id, submitted_job(id));
            },
            Call::Progress(id, progress) => {
                if before.contains_key(id) {
                    change_of_active_jobs(before, id, progressed_job(before[id], progress));
                    assert(active_jobs(after_call(before, calls.last())) =~= active_jobs(before));
                }
            },
            Call::Finish(id, outcome, secs, nanos, rate) => {
                change_of_active_jobs(
                    before,
                    id,
                    finished_job(before[id], outcome, secs, nanos, rate),
                );
            },
            Call::Delete(id) => {
                if delete_refusal(before, id) is None {
                    deletion_keeps_active_jobs(before, id);
                }
            },
        }
    }
}

/// Calls about other jobs, and attempts to delete it, leave an active job as it is.
pub proof fn active_job_is_left_alone(jobs: Jobs, calls: Seq<Call>, id: Seq<char>)
    requires
        jobs.contains_key(id),
        jobs[id].status.is_active(),
        forall|k: int| 0 <= k < calls.len() ==> !is_about(#[trigger] calls[k], id),
    ensures
        after_calls(jobs, calls).contains_key(id),
        after_calls(jobs, calls)[id] == jobs[id],
    decreases calls.len(),
{
    if calls.len() > 0 {
        let init = calls.drop_last();
        assert(calls[calls.len() - 1] == calls.last());
        assert forall|k: int| 0 <= k < init.len() implies !is_about(#[trigger] init[k], id) by {
            assert(calls[k] == init[k]);
        }
        active_job_is_left_alone(jobs, init, id);
    }
}

/// A step in the life of a job: an event of its own run, or a call about something else,
/// which may be an attempt to delete the job.
pub enum Step {
    Run(RunEvent),
    Other(Call),
}

/// The jobs together with the run of one of them.
pub struct JobHistory {
    pub jobs: Jobs,
    pub run: RunModel,
}

impl JobHistory {
    /// The state after a step.
    pub open spec fn after(self, step: Step) -> JobHistory {
        match step {
            Step::Run(event) => JobHistory {
                jobs: self.run.effect(self.jobs, event),
                run: self.run.after(event),
            },
            Step::Other(call) => JobHistory { jobs: after_call(self.jobs, call), ..self },
        }
    }

    /// The state after several steps.
    pub open spec fn after_all(self, steps: Seq<Step>) -> JobHistory
        decreases steps.len(),
    {
        if steps.len() == 0 {
            self
        } else {
            self.after_all(steps.drop_last()).after(steps.last())
        }
    }

    /// The job has just been submitted and its run begins.
    pub open spec fn is_start(self) -> bool {
        let id = self.run.job_id;
        &&& self.run.phase == RunPhase::Reporting
        &&& self.jobs.contains_key(id)
        &&& self.jobs[id] == submitted_job(id)
    }
}

/// The job's own run is the only one to note its progress and its end, and nobody submits
/// a job under the same identifier.
pub open spec fn leaves_to_run(steps: Seq<Step>, id: Seq<char>) -> bool {
    forall|k: int|
        0 <= k < steps.len() ==> (#[trigger] steps[k] matches Step::Other(call) ==> !is_about(
            call,
            id,
        ))
}

/// The life of a job, at any time after it was submitted. Until its run is finished the job
/// is there and running, without a key pair and without an error. Then it is completed,
/// with a key pair and without an error, or it has failed, with an error and without a key
/// pair; and it may be deleted.
pub proof fn life_of_a_job(start: JobHistory, steps: Seq<Step>)
    requires
        start.is_start(),
        leaves_to_run(steps, start.run.job_id),
    ensures
        ({
            let id = start.run.job_id;
            let now = start.after_all(steps);
            let job = now.jobs[id];
            &&& now.run.job_id == id
            &&& now.run.phase != RunPhase::Finished ==> {
                &&& now.jobs.contains_key(id)
                &&& job.status == JobStatus::Running
            }
            &&& now.run.phase == RunPhase::Finished && now.jobs.contains_key(id)
                ==> job.status == JobStatus::Completed || job.status == JobStatus::Failed
            &&& now.jobs.contains_key(id) ==> {
                &&& job.job_id == id
                &&& job.result is Some <==> job.status == JobStatus::Completed
                &&& job.error is Some <==> job.status == JobStatus::Failed
            }
        }),
    decreases steps.len(),
{
    if steps.len() > 0 {
        let init = steps.drop_last();
        assert(steps[steps.len() - 1] == steps.last());
        assert(leaves_to_run(init, start.run.job_id)) by {
            assert forall|k: int| 0 <= k < init.len() implies (
            #[trigger] init[k] matches Step::Other(call) ==> !is_about(call, start.run.job_id)) by {
                assert(steps[k] == init[k]);
            }
        }
        life_of_a_job(start, init);
    }
}

/// Once the run of a job is finished, no late report and no second end changes the job: it
/// stays exactly as it is until it is deleted, and then it does not come back.
pub proof fn finished_job_never_changes(end: JobHistory, steps: Seq<Step>)
    requires
        end.run.phase == RunPhase::Finished,
        leaves_to_run(steps, end.run.job_id),
    ensures
        ({
            let id = end.run.job_id;
            let now = end.after_all(steps);
            &&& now.run == end.run
            &&& now.jobs.contains_key(id) ==> end.jobs.contains_key(id) && now.jobs[id]
                == end.jobs[id]
        }),
    decreases steps.len(),
{
    if steps.len() > 0 {
        let init = steps.drop_last();
        assert(steps[steps.len() - 1] == steps.last());
        assert(leaves_to_run(init, end.run.job_id)) by {
            assert forall|k: int| 0 <= k < init.len() implies (
            #[trigger] init[k] matches Step::Other(call) ==> !is_about(call, end.run.job_id)) by {
                assert(steps[k] == init[k]);
            }
        }
        finished_job_never_changes(end, init);
    }
}

/// The attempts that a running job shows never fall from one report to the next, as long as
/// fewer than two to the power 64 key pairs are counted: both reports read the counter of
/// the job's search, the second later than the first, and between them only calls about
/// something else are made.
pub proof fn reported_attempts_never_fall(
    jobs: Jobs,
    run: RunModel,
    search: SearchModel,
    earlier: Seq<Move>,
    later: Seq<Move>,
    first: ProgressModel,
    between: Seq<Call>,
    second: ProgressModel,
)
    requires
        run.phase == RunPhase::Reporting,
        jobs.contains_key(run.job_id),
        jobs[run.job_id].status.is_active(),
        search.is_start(),
        search.attempts + search.after_all(earlier + later).drawn <= u64::MAX,
        first.attempts == search.after_all(earlier).attempts,
        second.attempts == search.after_all(earlier + later).attempts,
        forall|k: int| 0 <= k < between.len() ==> !is_about(#[trigger] between[k], run.job_id),
    ensures
        ({
            let once = run.effect(jobs, RunEvent::Tick(false, first));
            let twice = run.effect(after_calls(once, between), RunEvent::Tick(false, second));
            &&& status_answer(once, run.job_id) matches Ok(before)
            &&& status_answer(twice, run.job_id) matches Ok(after)
            &&& before.progress matches Some(shown_before)
            &&& after.progress matches Some(shown_after)
            &&& shown_before == first
            &&& shown_after == second
            &&& shown_before.attempts <= shown_after.attempts
            &&& after == progressed_job(before, second)
        }),
{
    let once = run.effect(jobs, RunEvent::Tick(false, first));
    active_job_is_left_alone(once, between, run.job_id);
    counter_never_falls(search, earlier, later);
}

} // verus!
