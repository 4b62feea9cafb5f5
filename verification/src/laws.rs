//! What holds across requests.

use vstd::prelude::*;

use crate::api::{
    async_refusal, change_of_active_jobs, delete_refusal, finished_job, listing,
    progressed_job, status_answer, submitted_job, sync_outcome, with_job,
};
use crate::jobs::{active_jobs, jobs_wf, Jobs, MAX_ACTIVE_JOBS};
use crate::models::{
    JobStatus, JobStatusResponse, KeyPairModel, ProgressModel, Refusal, RejectionModel,
    RequestModel,
};
use crate::text::{is_white_space, trim_ignores_surrounding_space};
use crate::vanity::{is_valid_suffix, valid_suffix_is_ascii, VanityResult};

verus! {

/// A search that is granted is for a valid suffix within the limit, with no more threads
/// than there are processors, and with all of them unless fewer are asked for.
pub proof fn granted_search_is_bounded(request: RequestModel, limit: usize, processors: usize)
    ensures
        sync_outcome(request, limit, processors) matches Ok(config) ==> {
            &&& is_valid_suffix(config.suffix)
            &&& config.suffix.len() <= limit
            &&& config.num_threads <= processors
            &&& request.threads is None ==> config.num_threads == processors
        },
{
    if sync_outcome(request, limit, processors) is Ok {
        valid_suffix_is_ascii(sync_outcome(request, limit, processors)->Ok_0.suffix);
    }
}

/// What may be waited for may also be submitted as a job, while there is a place and the
/// limit for jobs is no lower.
pub proof fn waiting_implies_submitting(
    request: RequestModel,
    sync_limit: usize,
    async_limit: usize,
    processors: usize,
    active: nat,
)
    requires
        sync_limit <= async_limit,
        active < MAX_ACTIVE_JOBS,
        sync_outcome(request, sync_limit, processors) is Ok,
    ensures
        async_refusal(request, async_limit, active) is None,
{
}

/// White space around the suffix of a request changes none of the answers.
pub proof fn surrounding_space_is_ignored(
    request: RequestModel,
    before: Seq<char>,
    after: Seq<char>,
    limit: usize,
    processors: usize,
    active: nat,
)
    requires
        forall|i: int| 0 <= i < before.len() ==> is_white_space(#[trigger] before[i]),
        forall|i: int| 0 <= i < after.len() ==> is_white_space(#[trigger] after[i]),
    ensures
        ({
            let padded = RequestModel { suffix: before + request.suffix + after, ..request };
            &&& sync_outcome(padded, limit, processors) == sync_outcome(request, limit, processors)
            &&& async_refusal(padded, limit, active) == async_refusal(request, limit, active)
        }),
{
    trim_ignores_surrounding_space(before, request.suffix, after);
}

/// A full service refuses every further job that is not refused for its suffix, and says
/// that there are too many.
pub proof fn full_service_refuses(request: RequestModel, limit: usize, active: nat)
    requires
        active >= MAX_ACTIVE_JOBS,
    ensures
        async_refusal(request, limit, active) matches Some(refusal) && (async_refusal(
            request,
            limit,
            0,
        ) is None ==> refusal.status == Refusal::TooManyRequests),
{
}

/// A job that was submitted is shown as running with nothing done, it cannot be deleted
/// yet, and no other job is affected.
pub proof fn submitted_job_is_running(jobs: Jobs, id: Seq<char>, other: Seq<char>)
    ensures
        ({
            let after = jobs.insert(id, submitted_job(id));
            &&& status_answer(after, id) == Ok::<_, RejectionModel>(submitted_job(id))
            &&& delete_refusal(after, id) matches Some(refusal)
            &&& refusal.status == Refusal::Conflict
            &&& other != id ==> status_answer(after, other) == status_answer(jobs, other)
        }),
{
}

/// Progress changes neither how a job stands nor what came of it, and no other job.
pub proof fn progress_keeps_outcome(
    jobs: Jobs,
    id: Seq<char>,
    progress: ProgressModel,
    other: Seq<char>,
)
    requires
        jobs.contains_key(id),
    ensures
        ({
            let after = with_job(jobs, id, progressed_job(jobs[id], progress));
            &&& status_answer(after, id) matches Ok(job)
            &&& job.progress == Some(progress)
            &&& job.status == jobs[id].status
            &&& job.result == jobs[id].result
            &&& job.error == jobs[id].error
            &&& delete_refusal(after, id) == delete_refusal(jobs, id)
            &&& other != id ==> status_answer(after, other) == status_answer(jobs, other)
        }),
{
}

/// Once the search of a job has ended with a key pair, the job is shown as completed with
/// that key pair; without one, as failed. No other job is affected, and a job that is gone
/// does not come back.
pub proof fn finished_job_is_shown(
    jobs: Jobs,
    id: Seq<char>,
    outcome: Option<VanityResult>,
    elapsed_secs: u64,
    elapsed_subsec_nanos: u32,
    rate: Seq<char>,
    other: Seq<char>,
)
    ensures
        ({
            let job = finished_job(jobs[id], outcome, elapsed_secs, elapsed_subsec_nanos, rate);
            let after = with_job(jobs, id, job);
            &&& other != id ==> status_answer(after, other) == status_answer(jobs, other)
            &&& !jobs.contains_key(id) ==> after == jobs
            &&& jobs.contains_key(id) ==> {
                &&& status_answer(after, id) == Ok::<_, RejectionModel>(job)
                &&& match outcome {
                    Some(found) => {
                        &&& job.status == JobStatus::Completed
                        &&& job.result == Some(
                            KeyPairModel {
                                public_key: found.public_key_base58@,
                                secret_key: found.full_keypair_bytes@,
                            },
                        )
                        &&& job.error is None
                    },
                    None => {
                        &&& job.status == JobStatus::Failed
                        &&& job.result == jobs[id].result
                        &&& job.error == Some("Generation failed unexpectedly"@)
                    },
                }
            }
        }),
{
}

/// The end of an active job's search frees its place: one active job fewer, and the job
/// may be deleted.
pub proof fn finished_job_frees_its_place(
    jobs: Jobs,
    id: Seq<char>,
    outcome: Option<VanityResult>,
    elapsed_secs: u64,
    elapsed_subsec_nanos: u32,
    rate: Seq<char>,
)
    requires
        jobs.dom().finite(),
        jobs.contains_key(id),
        jobs[id].status.is_active(),
    ensures
        ({
            let job = finished_job(jobs[id], outcome, elapsed_secs, elapsed_subsec_nanos, rate);
            let after = with_job(jobs, id, job);
            &&& active_jobs(after).len() + 1 == active_jobs(jobs).len()
            &&& delete_refusal(after, id) is None
        }),
{
    let job = finished_job(jobs[id], outcome, elapsed_secs, elapsed_subsec_nanos, rate);
    change_of_active_jobs(jobs, id, job);
    assert(active_jobs(jobs).contains(id));
}

/// A job that was deleted is gone, it cannot be deleted again, and no other job is affected.
pub proof fn deleted_job_is_gone(jobs: Jobs, id: Seq<char>, other: Seq<char>)
    requires
        delete_refusal(jobs, id) is None,
    ensures
        status_answer(jobs.remove(id), id) matches Err(refusal) && refusal.status
            == Refusal::NotFound,
        delete_refusal(jobs.remove(id), id) matches Some(refusal) && refusal.status
            == Refusal::NotFound,
        other != id ==> status_answer(jobs.remove(id), other) == status_answer(jobs, other),
{
}

/// Deleting a job changes nothing about how many are active: only a job that is not
/// active can be deleted.
pub proof fn deletion_keeps_active_jobs(jobs: Jobs, id: Seq<char>)
    requires
        delete_refusal(jobs, id) is None,
    ensures
        active_jobs(jobs.remove(id)) == active_jobs(jobs),
{
    assert(active_jobs(jobs.remove(id)) =~= active_jobs(jobs));
}

/// A list of all jobs is as long as there are jobs, and each job in it stands under the
/// identifier that it carries.
pub proof fn listing_is_complete(
    ids: Seq<Seq<char>>,
    listed: Seq<JobStatusResponse>,
    jobs: Jobs,
)
    requires
        jobs_wf(jobs),
        listing(ids, listed, jobs),
    ensures
        listed.len() == jobs.dom().len(),
        forall|i: int|
            0 <= i < listed.len() ==> {
                &&& (#[trigger] listed[i])@.job_id == ids[i]
                &&& status_answer(jobs, ids[i]) == Ok::<_, RejectionModel>(listed[i]@)
            },
{
    ids.unique_seq_to_set();
    assert forall|i: int| 0 <= i < listed.len() implies (#[trigger] listed[i])@.job_id == ids[i]
        && jobs.contains_key(ids[i]) by {
        assert(ids.to_set().contains(ids[i]));
        assert(jobs.contains_key(ids[i]));
    }
}

} // verus!
