//! What each operation of the service comes to, in the fields of what goes in and what comes
//! out.
//!
//! A law here is about every call of an operation: whatever it returns, and whatever it leaves
//! behind, stands in the stated relation to its arguments. `before` and `after` are the state
//! at the beginning and at the end of the call.

use vstd::prelude::*;

use crate::api::{
    assess, delete_job, estimate, finish_job, finish_sync, freshly_drawn, generate_async,
    generate_sync, get_job_status, health, is_random_uuid, list_jobs, listing, plan_sync,
    record_progress, report_health, submit_job, thread_budget, AcceptedJob,
};
use crate::jobs::{active_jobs, AppState, Jobs};
use crate::models::{
    EstimateResponse, GenerateRequest, GenerateResponse, GenerateResultPayload, HealthResponse,
    JobDeletedResponse, JobProgress, JobStatus, JobStatusResponse, Refusal, Rejection,
};
use crate::run::{next_report, JobRun, RunPhase};
use crate::text::{decimal, is_trimmed_from, trimmed, trimmed_text_is_trimmed};
use crate::vanity::{
    is_complaint, is_searchable, odds, processors_counted, suffix_error_is_a_complaint,
    VanityConfig, VanityResult,
};

verus! {

/// The job takes up a place: it waits to be run, or runs.
pub open spec fn takes_a_place(status: JobStatus) -> bool {
    match status {
        JobStatus::Pending => true,
        JobStatus::Running => true,
        JobStatus::Completed => false,
        JobStatus::Failed => false,
    }
}

/// `threads` is what was asked for, or one for each processor if nothing was, but no more than
/// there are processors.
pub open spec fn is_fair_share(threads: usize, asked: Option<usize>, processors: usize) -> bool {
    &&& threads <= processors
    &&& asked is None ==> threads == processors
    &&& asked matches Some(n) ==> threads <= n && (threads == n || threads == processors)
}

/// `config` is the search that `request` asks for, but for the number of threads.
pub open spec fn is_search_for(config: VanityConfig, request: GenerateRequest) -> bool {
    &&& is_trimmed_from(config.suffix@, request.suffix@)
    &&& config.case_insensitive == request.case_insensitive
}

/// `text` is there, and is `expected`.
pub open spec fn says(text: Option<String>, expected: Seq<char>) -> bool {
    text matches Some(t) && t@ == expected
}

/// The request is refused because its suffix may not be searched for, and it is said why.
pub open spec fn refuses_suffix(rejection: Rejection, suffix: Seq<char>) -> bool {
    &&& rejection.status == Refusal::BadRequest
    &&& rejection.body.error@ == "Invalid suffix"@
    &&& rejection.body.details matches Some(message)
    &&& is_complaint(suffix, message@)
}

/// The request is refused because its suffix takes too long to wait for.
pub open spec fn refuses_to_wait(
    rejection: Rejection,
    suffix: Seq<char>,
    case_insensitive: bool,
    limit: usize,
) -> bool {
    &&& rejection.status == Refusal::BadRequest
    &&& rejection.body.error@ == "Suffix too long for synchronous generation (max "@ + decimal(
        limit as nat,
    ) + " chars). Use POST /api/generate/async for longer suffixes."@
    &&& says(
        rejection.body.details,
        "Expected ~"@ + decimal(odds(suffix.len(), case_insensitive) as nat)
            + " attempts. Use the async endpoint instead."@,
    )
}

/// A view holds every field of what it is the view of.
pub proof fn views_hold_every_field(
    request: GenerateRequest,
    config: VanityConfig,
    job: JobStatusResponse,
    progress: JobProgress,
    response: GenerateResponse,
    payload: GenerateResultPayload,
    rejection: Rejection,
)
    ensures
        request@.suffix == request.suffix@,
        request@.case_insensitive == request.case_insensitive,
        request@.threads == request.threads,
        config@.suffix == config.suffix@,
        config@.case_insensitive == config.case_insensitive,
        config@.num_threads == config.num_threads,
        job@.job_id == job.job_id@,
        job@.status == job.status,
        job.result is Some <==> job@.result is Some,
        job.result matches Some(r) ==> job@.result == Some(r@),
        job.progress is Some <==> job@.progress is Some,
        job.progress matches Some(p) ==> job@.progress == Some(p@),
        job.error is Some <==> job@.error is Some,
        job.error matches Some(e) ==> job@.error == Some(e@),
        progress@.attempts == progress.attempts,
        progress@.elapsed_secs == progress.elapsed_secs,
        progress@.elapsed_subsec_nanos == progress.elapsed_subsec_nanos,
        progress@.rate == progress.rate@,
        response@.public_key == response.public_key@,
        response@.secret_key == response.secret_key@,
        payload@.public_key == payload.public_key@,
        payload@.secret_key == payload.secret_key@,
        rejection@.status == rejection.status,
        rejection@.error == rejection.body.error@,
        rejection.body.details is Some <==> rejection@.details is Some,
        rejection.body.details matches Some(d) ==> rejection@.details == Some(d@),
{
}

/// A copy of a job, of its progress or of its key pair shows the same.
pub proof fn copies_show_the_same(
    job: JobStatusResponse,
    job_copy: JobStatusResponse,
    progress: JobProgress,
    progress_copy: JobProgress,
    payload: GenerateResultPayload,
    payload_copy: GenerateResultPayload,
)
    requires
        call_ensures(JobStatusResponse::clone, (&job,), job_copy),
        call_ensures(JobProgress::clone, (&progress,), progress_copy),
        call_ensures(GenerateResultPayload::clone, (&payload,), payload_copy),
    ensures
        job_copy@ == job@,
        progress_copy@ == progress@,
        payload_copy@ == payload@,
{
}

/// A search gets the threads that it asks for, or one for each processor, but no more than
/// there are processors.
pub proof fn threads_are_shared_fairly(asked: Option<usize>, processors: usize, res: usize)
    requires
        call_ensures(thread_budget, (asked, processors), res),
    ensures
        is_fair_share(res, asked, processors),
{
}

/// A request to wait for is granted exactly if its trimmed suffix may be searched for and is
/// no longer than the limit. What is granted is the search for that suffix, with the letter
/// case as asked, in a fair share of threads. Otherwise it is said what is wrong.
pub proof fn waiting_gets_the_search_asked_for(
    request: &GenerateRequest,
    limit: usize,
    processors: usize,
    res: Result<VanityConfig, Rejection>,
)
    requires
        call_ensures(plan_sync, (request, limit, processors), res),
    ensures
        ({
            let suffix = trimmed(request.suffix@);
            &&& is_trimmed_from(suffix, request.suffix@)
            &&& res is Ok <==> is_searchable(suffix) && suffix.len() <= limit
            &&& res matches Ok(config) ==> {
                &&& config.suffix@ == suffix
                &&& is_search_for(config, *request)
                &&& is_fair_share(config.num_threads, request.threads, processors)
            }
            &&& res matches Err(rejection) ==> if is_searchable(suffix) {
                refuses_to_wait(rejection, suffix, request.case_insensitive, limit)
            } else {
                refuses_suffix(rejection, suffix)
            }
        }),
{
    let suffix = trimmed(request.suffix@);
    trimmed_text_is_trimmed(request.suffix@);
    suffix_error_is_a_complaint(suffix);
}

/// The same on this machine, with the limit of the service for requests to wait for.
pub proof fn waiting_gets_the_search_asked_for_here(
    request: &GenerateRequest,
    state: &AppState,
    res: Result<VanityConfig, Rejection>,
)
    requires
        call_ensures(generate_sync, (request, state), res),
    ensures
        ({
            let suffix = trimmed(request.suffix@);
            let limit = state.max_suffix_len_sync;
            &&& is_trimmed_from(suffix, request.suffix@)
            &&& res is Ok <==> is_searchable(suffix) && suffix.len() <= limit
            &&& res matches Ok(config) ==> {
                &&& config.suffix@ == suffix
                &&& is_search_for(config, *request)
                &&& exists|processors: usize| #[trigger]
                    processors_counted(processors) && is_fair_share(
                        config.num_threads,
                        request.threads,
                        processors,
                    )
            }
            &&& res matches Err(rejection) ==> if is_searchable(suffix) {
                refuses_to_wait(rejection, suffix, request.case_insensitive, limit)
            } else {
                refuses_suffix(rejection, suffix)
            }
        }),
{
    let suffix = trimmed(request.suffix@);
    trimmed_text_is_trimmed(request.suffix@);
    suffix_error_is_a_complaint(suffix);
}

/// Who waited is given the public key and all 64 bytes of the key pair that was found. Where
/// none was found, or the search could not be run to its end, it is said so.
pub proof fn waiting_is_answered(
    outcome: Result<Option<VanityResult>, String>,
    res: Result<GenerateResponse, Rejection>,
)
    requires
        call_ensures(finish_sync, (outcome,), res),
    ensures
        res is Ok <==> outcome matches Ok(Some(_)),
        outcome matches Ok(Some(found)) ==> (res matches Ok(response) ==> {
            &&& response.public_key@ == found.public_key_base58@
            &&& response.secret_key@ == found.full_keypair_bytes@
        }),
        res matches Err(rejection) ==> rejection.status == Refusal::InternalServerError,
        outcome matches Ok(None) ==> (res matches Err(rejection) ==> {
            &&& rejection.body.error@ == "Generation failed unexpectedly"@
            &&& rejection.body.details is None
        }),
        outcome matches Err(reason) ==> (res matches Err(rejection) ==> {
            &&& rejection.body.error@ == "Internal error"@
            &&& says(rejection.body.details, reason@)
        }),
{
}

/// `after` differs from `before` at most in the job under `id`.
pub open spec fn only_job_changes(before: Jobs, after: Jobs, id: Seq<char>) -> bool {
    forall|other: Seq<char>|
        other != id ==> {
            &&& #[trigger] after.contains_key(other) <==> before.contains_key(other)
            &&& before.contains_key(other) ==> after[other] == before[other]
        }
}

/// The limits of the service are as they were.
pub open spec fn limits_stay(before: AppState, after: AppState) -> bool {
    &&& after.max_suffix_len_sync == before.max_suffix_len_sync
    &&& after.max_suffix_len_async == before.max_suffix_len_async
}

/// Under `id` stands a job that runs, for which nothing has been done yet.
pub open spec fn has_just_begun(jobs: Jobs, id: Seq<char>) -> bool {
    &&& jobs.contains_key(id)
    &&& jobs[id].job_id == id
    &&& jobs[id].status == JobStatus::Running
    &&& jobs[id].result is None
    &&& jobs[id].error is None
    &&& jobs[id].progress matches Some(progress)
    &&& progress.attempts == 0
    &&& progress.elapsed_secs == 0
    &&& progress.elapsed_subsec_nanos == 0
    &&& progress.rate == "0 keys/s"@
}

/// What the submission of a job leads to. It is taken on exactly if its trimmed suffix may be
/// searched for and is no longer than the limit for jobs, and fewer than five jobs take up a
/// place. Then the search to run is the one asked for, the job has just begun, and it is said
/// how long it may take. Otherwise it is said what is wrong, and nothing has changed.
pub open spec fn is_answer_to_submission(
    before: AppState,
    after: AppState,
    request: GenerateRequest,
    res: Result<AcceptedJob, Rejection>,
) -> bool {
    let suffix = trimmed(request.suffix@);
    let limit = before.max_suffix_len_async;
    &&& limits_stay(before, after)
    &&& is_trimmed_from(suffix, request.suffix@)
    &&& res is Ok <==> {
        &&& is_searchable(suffix)
        &&& suffix.len() <= limit
        &&& active_jobs(before.jobs@).len() < 5
    }
    &&& res matches Ok(accepted) ==> {
        let id = accepted.response.job_id@;
        &&& accepted.config.suffix@ == suffix
        &&& is_search_for(accepted.config, request)
        &&& accepted.response.status@ == "running"@
        &&& accepted.response.message@ == "Job started. Expected ~"@ + decimal(
            odds(suffix.len(), request.case_insensitive) as nat,
        ) + " attempts. Poll GET /api/jobs/{job_id} for status."@
        &&& has_just_begun(after.jobs@, id)
        &&& only_job_changes(before.jobs@, after.jobs@, id)
    }
    &&& res matches Err(rejection) ==> {
        &&& after.jobs@ == before.jobs@
        &&& if !is_searchable(suffix) {
            refuses_suffix(rejection, suffix)
        } else if suffix.len() > limit {
            &&& rejection.status == Refusal::BadRequest
            &&& rejection.body.error@ == "Suffix too long (max "@ + decimal(limit as nat)
                + " chars for async generation)"@
            &&& rejection.body.details is None
        } else {
            &&& rejection.status == Refusal::TooManyRequests
            &&& rejection.body.error@
                == "Too many active jobs. Please wait for existing jobs to complete."@
            &&& rejection.body.details is None
        }
    }
}

/// A job that is submitted runs the search that was asked for, under the given identifier, or
/// is refused for a reason that is said.
pub proof fn submitted_job_runs_the_search_asked_for(
    before: AppState,
    after: AppState,
    request: &GenerateRequest,
    job_id: String,
    processors: usize,
    res: Result<AcceptedJob, Rejection>,
)
    requires
        exists|state: &mut AppState|
            {
                &&& *state == before
                &&& *final(state) == after
                &&& #[trigger] call_ensures(
                    submit_job,
                    (state, request, job_id, processors),
                    res,
                )
            },
    ensures
        is_answer_to_submission(before, after, *request, res),
        res matches Ok(accepted) ==> {
            &&& accepted.response.job_id@ == job_id@
            &&& is_fair_share(accepted.config.num_threads, request.threads, processors)
        },
{
    trimmed_text_is_trimmed(request.suffix@);
    suffix_error_is_a_complaint(trimmed(request.suffix@));
}

/// The same on this machine, under an identifier that is drawn for the job.
pub proof fn submitted_job_runs_the_search_asked_for_here(
    before: AppState,
    after: AppState,
    request: &GenerateRequest,
    res: Result<AcceptedJob, Rejection>,
)
    requires
        exists|state: &mut AppState|
            {
                &&& *state == before
                &&& *final(state) == after
                &&& #[trigger] call_ensures(generate_async, (request, state), res)
            },
    ensures
        is_answer_to_submission(before, after, *request, res),
        res matches Ok(accepted) ==> {
            &&& freshly_drawn(accepted.response.job_id@)
            &&& is_random_uuid(accepted.response.job_id@)
            &&& exists|processors: usize| #[trigger]
                processors_counted(processors) && is_fair_share(
                    accepted.config.num_threads,
                    request.threads,
                    processors,
                )
        },
{
    trimmed_text_is_trimmed(request.suffix@);
    suffix_error_is_a_complaint(trimmed(request.suffix@));
}

/// Progress that is noted is what the job then shows; how it stands and what came of it stays,
/// and so does every other job. A job that is gone stays gone.
pub proof fn noted_progress_is_shown(
    before: AppState,
    after: AppState,
    job_id: &str,
    progress: JobProgress,
)
    requires
        exists|state: &mut AppState|
            {
                &&& *state == before
                &&& *final(state) == after
                &&& #[trigger] call_ensures(record_progress, (state, job_id, progress), ())
            },
    ensures
        shows_progress(
            before,
            after,
            job_id@,
            progress.attempts,
            progress.elapsed_secs,
            progress.elapsed_subsec_nanos,
            progress.rate@,
        ),
{
}

/// The job shows this progress and is otherwise as it was; if it is gone, it stays gone.
pub open spec fn shows_progress(
    before: AppState,
    after: AppState,
    id: Seq<char>,
    attempts: u64,
    elapsed_secs: u64,
    elapsed_subsec_nanos: u32,
    rate: Seq<char>,
) -> bool {
    let old_job = before.jobs@[id];
    let job = after.jobs@[id];
    &&& limits_stay(before, after)
    &&& only_job_changes(before.jobs@, after.jobs@, id)
    &&& after.jobs@.contains_key(id) <==> before.jobs@.contains_key(id)
    &&& before.jobs@.contains_key(id) ==> {
        &&& job.job_id == old_job.job_id
        &&& job.status == old_job.status
        &&& job.result == old_job.result
        &&& job.error == old_job.error
        &&& job.progress matches Some(shown)
        &&& shown.attempts == attempts
        &&& shown.elapsed_secs == elapsed_secs
        &&& shown.elapsed_subsec_nanos == elapsed_subsec_nanos
        &&& shown.rate == rate
    }
}

/// The end of a search, noted of its job. With a key pair the job is completed: it shows the
/// public key, all 64 bytes, the attempts of the search and its time and rate, and no error.
/// Without one it has failed: it shows the error, and is otherwise as it was. A job that is
/// gone stays gone.
pub open spec fn shows_end(
    before: AppState,
    after: AppState,
    id: Seq<char>,
    outcome: Option<VanityResult>,
    elapsed_secs: u64,
    elapsed_subsec_nanos: u32,
    rate: Seq<char>,
) -> bool {
    let old_job = before.jobs@[id];
    let job = after.jobs@[id];
    &&& limits_stay(before, after)
    &&& only_job_changes(before.jobs@, after.jobs@, id)
    &&& after.jobs@.contains_key(id) <==> before.jobs@.contains_key(id)
    &&& before.jobs@.contains_key(id) ==> {
        &&& job.job_id == old_job.job_id
        &&& outcome matches Some(found) ==> {
            &&& job.status == JobStatus::Completed
            &&& job.error is None
            &&& job.result matches Some(pair)
            &&& pair.public_key == found.public_key_base58@
            &&& pair.secret_key == found.full_keypair_bytes@
            &&& job.progress matches Some(shown)
            &&& shown.attempts == found.attempts
            &&& shown.elapsed_secs == elapsed_secs
            &&& shown.elapsed_subsec_nanos == elapsed_subsec_nanos
            &&& shown.rate == rate
        }
        &&& outcome is None ==> {
            &&& job.status == JobStatus::Failed
            &&& job.error == Some("Generation failed unexpectedly"@)
            &&& job.result == old_job.result
            &&& job.progress == old_job.progress
        }
    }
}

/// A job whose search has ended shows what came of it.
pub proof fn noted_end_is_shown(
    before: AppState,
    after: AppState,
    job_id: &str,
    outcome: Option<VanityResult>,
    elapsed_secs: u64,
    elapsed_subsec_nanos: u32,
    rate: String,
)
    requires
        exists|state: &mut AppState|
            {
                &&& *state == before
                &&& *final(state) == after
                &&& #[trigger] call_ensures(
                    finish_job,
                    (state, job_id, outcome, elapsed_secs, elapsed_subsec_nanos, rate),
                    (),
                )
            },
    ensures
        shows_end(before, after, job_id@, outcome, elapsed_secs, elapsed_subsec_nanos, rate@),
{
}

/// A job that is there is shown as it is; of another it is said that there is none.
pub proof fn job_is_shown_as_it_is(
    job_id: &str,
    state: &AppState,
    res: Result<JobStatusResponse, Rejection>,
)
    requires
        call_ensures(get_job_status, (job_id, state), res),
    ensures
        res is Ok <==> state.jobs@.contains_key(job_id@),
        res matches Ok(job) ==> {
            let stored = state.jobs@[job_id@];
            &&& job.job_id@ == stored.job_id
            &&& job.status == stored.status
            &&& job.result is Some <==> stored.result is Some
            &&& job.result matches Some(pair) ==> {
                &&& stored.result matches Some(kept)
                &&& pair.public_key@ == kept.public_key
                &&& pair.secret_key@ == kept.secret_key
            }
            &&& job.progress is Some <==> stored.progress is Some
            &&& job.progress matches Some(shown) ==> {
                &&& stored.progress matches Some(kept)
                &&& shown.attempts == kept.attempts
                &&& shown.elapsed_secs == kept.elapsed_secs
                &&& shown.elapsed_subsec_nanos == kept.elapsed_subsec_nanos
                &&& shown.rate@ == kept.rate
            }
            &&& job.error is Some <==> stored.error is Some
            &&& job.error matches Some(text) ==> stored.error == Some(text@)
        },
        res matches Err(rejection) ==> {
            &&& rejection.status == Refusal::NotFound
            &&& rejection.body.error@ == "Job not found"@
            &&& says(rejection.body.details, "No job with ID: "@ + job_id@)
        },
{
}

/// The job stands among the jobs.
pub open spec fn is_one_of(job: JobStatusResponse, jobs: Jobs) -> bool {
    exists|id: Seq<char>| #[trigger] jobs.contains_key(id) && job@ == jobs[id]
}

/// Every job is listed, each once, and nothing else is.
pub proof fn every_job_is_listed_once(state: &AppState, res: Vec<JobStatusResponse>)
    requires
        call_ensures(list_jobs, (state,), res),
    ensures
        res@.len() == state.jobs@.dom().len(),
        state.jobs@.dom().finite(),
        forall|id: Seq<char>| #[trigger]
            state.jobs@.contains_key(id) ==> exists|i: int|
                0 <= i < res@.len() && (#[trigger] res@[i])@ == state.jobs@[id],
        forall|i: int| 0 <= i < res@.len() ==> is_one_of(#[trigger] res@[i], state.jobs@),
{
    let jobs = state.jobs@;
    let ids = choose|ids: Seq<Seq<char>>| #[trigger] listing(ids, res@, jobs);
    ids.unique_seq_to_set();
    assert(ids.to_set().finite());
    assert forall|id: Seq<char>| #[trigger] jobs.contains_key(id) implies exists|i: int|
        0 <= i < res@.len() && (#[trigger] res@[i])@ == jobs[id] by {
        assert(ids.to_set().contains(id));
        let i = choose|i: int| 0 <= i < ids.len() && ids[i] == id;
        assert(res@[i]@ == jobs[id]);
    }
    assert forall|i: int| 0 <= i < res@.len() implies is_one_of(#[trigger] res@[i], jobs) by {
        assert(ids.to_set().contains(ids[i]));
        assert(jobs.contains_key(ids[i]));
    }
}

/// A job is deleted exactly if it is there and takes up no place; then it is gone, and every
/// other job is as it was. Otherwise it is said why not, and nothing has changed.
pub proof fn only_ended_jobs_are_deleted(
    before: AppState,
    after: AppState,
    job_id: &str,
    res: Result<JobDeletedResponse, Rejection>,
)
    requires
        exists|state: &mut AppState|
            {
                &&& *state == before
                &&& *final(state) == after
                &&& #[trigger] call_ensures(delete_job, (job_id, state), res)
            },
    ensures
        limits_stay(before, after),
        res is Ok <==> before.jobs@.contains_key(job_id@) && !takes_a_place(
            before.jobs@[job_id@].status,
        ),
        res matches Ok(response) ==> {
            &&& response.message@ == "Job deleted"@
            &&& response.job_id@ == job_id@
            &&& !after.jobs@.contains_key(job_id@)
            &&& only_job_changes(before.jobs@, after.jobs@, job_id@)
        },
        res matches Err(rejection) ==> {
            &&& after.jobs@ == before.jobs@
            &&& rejection.body.details is None
            &&& if before.jobs@.contains_key(job_id@) {
                &&& rejection.status == Refusal::Conflict
                &&& rejection.body.error@ == "Cannot delete a running job"@
            } else {
                &&& rejection.status == Refusal::NotFound
                &&& rejection.body.error@ == "Job not found"@
            }
        },
{
}

/// What is said of the suffix of a request: how many keys it takes on average, 58 to the power
/// of its length, or 34 if letter case is ignored; or why it may not be searched for.
pub open spec fn is_estimate_for(
    request: GenerateRequest,
    res: Result<EstimateResponse, Rejection>,
) -> bool {
    let suffix = trimmed(request.suffix@);
    &&& is_trimmed_from(suffix, request.suffix@)
    &&& res is Ok <==> is_searchable(suffix)
    &&& res matches Ok(response) ==> {
        let expected = odds(suffix.len(), request.case_insensitive);
        &&& response.suffix@ == suffix
        &&& response.case_insensitive == request.case_insensitive
        &&& response.expected_attempts == expected
        &&& response.difficulty@ == "1 in "@ + decimal(expected as nat)
    }
    &&& res matches Err(rejection) ==> refuses_suffix(rejection, suffix)
}

/// The estimate that is answered is the one for the suffix and the letter case of the request.
pub proof fn estimate_is_for_the_request(
    request: &GenerateRequest,
    processors: usize,
    res: Result<EstimateResponse, Rejection>,
)
    requires
        call_ensures(assess, (request, processors), res),
    ensures
        is_estimate_for(*request, res),
        res matches Ok(response) ==> response.threads == processors,
{
    trimmed_text_is_trimmed(request.suffix@);
    suffix_error_is_a_complaint(trimmed(request.suffix@));
}

/// The same on this machine.
pub proof fn estimate_is_for_the_request_here(
    request: &GenerateRequest,
    res: Result<EstimateResponse, Rejection>,
)
    requires
        call_ensures(estimate, (request,), res),
    ensures
        is_estimate_for(*request, res),
        res matches Ok(response) ==> processors_counted(response.threads),
{
    trimmed_text_is_trimmed(request.suffix@);
    suffix_error_is_a_complaint(trimmed(request.suffix@));
}

/// An active job is one that takes up a place, and as many are counted as there are.
pub proof fn active_jobs_take_up_places(state: &AppState, count: usize, id: Seq<char>)
    requires
        call_ensures(AppState::active_job_count, (state,), count),
    ensures
        count == active_jobs(state.jobs@).len(),
        active_jobs(state.jobs@).finite(),
        active_jobs(state.jobs@).contains(id) <==> state.jobs@.contains_key(id) && takes_a_place(
            state.jobs@[id].status,
        ),
{
}

/// A job takes up a place while it waits to be run or runs.
pub proof fn active_means_pending_or_running(status: JobStatus, res: bool)
    requires
        call_ensures(JobStatus::active, (status,), res),
    ensures
        res <==> takes_a_place(status),
        status.is_active() <==> takes_a_place(status),
{
}

/// A new service has no jobs; it lets four characters be waited for, and seven be searched for
/// in a job.
pub proof fn new_service_is_empty(state: AppState)
    requires
        call_ensures(AppState::new, (), state),
    ensures
        forall|id: Seq<char>| !#[trigger] state.jobs@.contains_key(id),
        state.max_suffix_len_sync == 4,
        state.max_suffix_len_async == 7,
{
}

/// The service says that it is up, in which version, on how many processors, and how many jobs
/// take up a place.
pub proof fn health_is_reported(
    state: &AppState,
    version: &str,
    processors: usize,
    given: HealthResponse,
    here: HealthResponse,
)
    requires
        call_ensures(report_health, (state, version, processors), given),
        call_ensures(health, (state, version), here),
    ensures
        given.status@ == "ok"@ && here.status@ == "ok"@,
        given.version@ == version@ && here.version@ == version@,
        given.available_threads == processors,
        here.available_threads >= 1 && processors_counted(here.available_threads),
        given.active_jobs == active_jobs(state.jobs@).len(),
        here.active_jobs == active_jobs(state.jobs@).len(),
{
}

/// There is something to report exactly as long as no key pair was found, namely how far the
/// search has come.
pub proof fn report_says_how_far_it_has_come(
    found: bool,
    attempts: u64,
    elapsed_secs: u64,
    elapsed_subsec_nanos: u32,
    rate: String,
    res: Option<JobProgress>,
)
    requires
        call_ensures(
            next_report,
            (found, attempts, elapsed_secs, elapsed_subsec_nanos, rate),
            res,
        ),
    ensures
        res is Some <==> !found,
        res matches Some(report) ==> {
            &&& report.attempts == attempts
            &&& report.elapsed_secs == elapsed_secs
            &&& report.elapsed_subsec_nanos == elapsed_subsec_nanos
            &&& report.rate@ == rate@
        },
{
}

/// A run begins by reporting, of the job that it is for.
pub proof fn run_begins_by_reporting(job_id: String, run: JobRun, phase: RunPhase)
    requires
        call_ensures(JobRun::new, (job_id,), run),
        call_ensures(JobRun::phase, (&run,), phase),
    ensures
        run@.job_id == job_id@,
        run@.phase == RunPhase::Reporting,
        phase == RunPhase::Reporting,
{
}

/// A run that reports shows its job's progress as long as the flag is not raised, and reports
/// nothing more once it is. A run that no longer reports changes nothing.
pub proof fn run_reports_until_the_flag_is_raised(
    run_before: JobRun,
    run_after: JobRun,
    before: AppState,
    after: AppState,
    found: bool,
    attempts: u64,
    elapsed_secs: u64,
    elapsed_subsec_nanos: u32,
    rate: String,
)
    requires
        exists|run: &mut JobRun, state: &mut AppState|
            {
                &&& *run == run_before
                &&& *final(run) == run_after
                &&& *state == before
                &&& *final(state) == after
                &&& #[trigger] call_ensures(
                    JobRun::tick,
                    (run, state, found, attempts, elapsed_secs, elapsed_subsec_nanos, rate),
                    (),
                )
            },
    ensures
        run_after@.job_id == run_before@.job_id,
        limits_stay(before, after),
        run_before@.phase == RunPhase::Reporting && !found ==> {
            &&& run_after@.phase == RunPhase::Reporting
            &&& shows_progress(
                before,
                after,
                run_before@.job_id,
                attempts,
                elapsed_secs,
                elapsed_subsec_nanos,
                rate@,
            )
        },
        run_before@.phase == RunPhase::Reporting && found ==> {
            &&& run_after@.phase == RunPhase::Awaiting
            &&& after.jobs@ == before.jobs@
        },
        run_before@.phase != RunPhase::Reporting ==> {
            &&& run_after@.phase == run_before@.phase
            &&& after.jobs@ == before.jobs@
        },
{
}

/// A run that waits for the end of the search shows it in its job, once. A run that does not
/// wait for it changes nothing.
pub proof fn run_shows_the_end_once(
    run_before: JobRun,
    run_after: JobRun,
    before: AppState,
    after: AppState,
    outcome: Option<VanityResult>,
    elapsed_secs: u64,
    elapsed_subsec_nanos: u32,
    rate: String,
)
    requires
        exists|run: &mut JobRun, state: &mut AppState|
            {
                &&& *run == run_before
                &&& *final(run) == run_after
                &&& *state == before
                &&& *final(state) == after
                &&& #[trigger] call_ensures(
                    JobRun::conclude,
                    (run, state, outcome, elapsed_secs, elapsed_subsec_nanos, rate),
                    (),
                )
            },
    ensures
        run_after@.job_id == run_before@.job_id,
        limits_stay(before, after),
        run_before@.phase == RunPhase::Awaiting ==> {
            &&& run_after@.phase == RunPhase::Finished
            &&& shows_end(
                before,
                after,
                run_before@.job_id,
                outcome,
                elapsed_secs,
                elapsed_subsec_nanos,
                rate@,
            )
        },
        run_before@.phase != RunPhase::Awaiting ==> {
            &&& run_after@.phase == run_before@.phase
            &&& after.jobs@ == before.jobs@
        },
{
}

/// A job that was taken on is shown, to who asks for it under the identifier that was
/// answered, as running.
pub proof fn submitted_job_can_be_asked_for(
    before: AppState,
    after: AppState,
    request: &GenerateRequest,
    accepted: AcceptedJob,
    job_id: &str,
    shown: Result<JobStatusResponse, Rejection>,
)
    requires
        exists|state: &mut AppState|
            {
                &&& *state == before
                &&& *final(state) == after
                &&& #[trigger] call_ensures(generate_async, (request, state), Ok(accepted))
            },
        job_id@ == accepted.response.job_id@,
        call_ensures(get_job_status, (job_id, &after), shown),
    ensures
        shown matches Ok(job) && job.job_id@ == job_id@ && job.status == JobStatus::Running
            && job.result is None && job.error is None,
{
    submitted_job_runs_the_search_asked_for_here(before, after, request, Ok(accepted));
    job_is_shown_as_it_is(job_id, &after, shown);
}

/// Once the end of its search is noted, a job is shown with the key pair that was found, or as
/// failed.
pub proof fn ended_job_can_be_asked_for(
    before: AppState,
    after: AppState,
    job_id: &str,
    outcome: Option<VanityResult>,
    elapsed_secs: u64,
    elapsed_subsec_nanos: u32,
    rate: String,
    shown: Result<JobStatusResponse, Rejection>,
)
    requires
        before.jobs@.contains_key(job_id@),
        exists|state: &mut AppState|
            {
                &&& *state == before
                &&& *final(state) == after
                &&& #[trigger] call_ensures(
                    finish_job,
                    (state, job_id, outcome, elapsed_secs, elapsed_subsec_nanos, rate),
                    (),
                )
            },
        call_ensures(get_job_status, (job_id, &after), shown),
    ensures
        shown is Ok,
        shown matches Ok(job) ==> match outcome {
            Some(found) => {
                &&& job.status == JobStatus::Completed
                &&& job.error is None
                &&& job.result matches Some(pair)
                &&& pair.public_key@ == found.public_key_base58@
                &&& pair.secret_key@ == found.full_keypair_bytes@
                &&& job.progress matches Some(progress)
                &&& progress.attempts == found.attempts
            },
            None => {
                &&& job.status == JobStatus::Failed
                &&& says(job.error, "Generation failed unexpectedly"@)
            },
        },
{
    noted_end_is_shown(before, after, job_id, outcome, elapsed_secs, elapsed_subsec_nanos, rate);
    job_is_shown_as_it_is(job_id, &after, shown);
}

/// A job that was deleted is not found.
pub proof fn deleted_job_is_not_found(
    before: AppState,
    after: AppState,
    job_id: &str,
    response: JobDeletedResponse,
    shown: Result<JobStatusResponse, Rejection>,
)
    requires
        exists|state: &mut AppState|
            {
                &&& *state == before
                &&& *final(state) == after
                &&& #[trigger] call_ensures(delete_job, (job_id, state), Ok(response))
            },
        call_ensures(get_job_status, (job_id, &after), shown),
    ensures
        shown matches Err(rejection) && rejection.status == Refusal::NotFound,
{
    only_ended_jobs_are_deleted(before, after, job_id, Ok(response));
}

} // verus!
