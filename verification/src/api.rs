//! How the service answers.

use uuid::Uuid;
use vstd::prelude::*;
use vstd::utf8::encode_utf8;

use crate::jobs::{active_jobs, jobs_wf, lists, AppState, Jobs, MAX_ACTIVE_JOBS};
use crate::models::{
    optional_text, ErrorResponse, EstimateResponse, GenerateRequest, GenerateResponse,
    GenerateResultPayload, HealthResponse, JobDeletedResponse, JobModel, JobProgress, JobStatus,
    JobStatusResponse, JobSubmittedResponse, KeyPairModel, ProgressModel, Refusal, Rejection,
    RejectionModel, RequestModel,
};
use crate::text::{decimal, decimal_text, trim_text, trimmed};
use crate::vanity::{
    count_processors, estimate_attempts, estimate_of_allowed_length_is_exact, expected_attempts,
    is_valid_suffix, processors_counted, suffix_error, validate_suffix, ConfigModel,
    VanityConfig, VanityResult,
};

verus! {

/// The threads that a request gets: as many as it asks for, or one for each processor, but
/// no more than there are processors.
pub open spec fn thread_count(requested: Option<usize>, processors: usize) -> usize {
    match requested {
        Some(n) => if n <= processors {
            n
        } else {
            processors
        },
        None => processors,
    }
}

/// The search that a request asks for.
pub open spec fn requested_search(request: RequestModel, processors: usize) -> ConfigModel {
    ConfigModel {
        suffix: trimmed(request.suffix),
        case_insensitive: request.case_insensitive,
        num_threads: thread_count(request.threads, processors),
    }
}

/// The refusal of a suffix that is not valid.
pub open spec fn invalid_suffix(message: Seq<char>) -> RejectionModel {
    RejectionModel {
        status: Refusal::BadRequest,
        error: "Invalid suffix"@,
        details: Some(message),
    }
}

/// The expected number of attempts for a suffix, in decimal.
pub open spec fn expected_text(suffix: Seq<char>, case_insensitive: bool) -> Seq<char> {
    decimal(expected_attempts(encode_utf8(suffix).len(), case_insensitive) as nat)
}

/// The refusal of a suffix that is too long to wait for.
pub open spec fn too_long_to_wait(
    suffix: Seq<char>,
    case_insensitive: bool,
    limit: usize,
) -> RejectionModel {
    RejectionModel {
        status: Refusal::BadRequest,
        error: "Suffix too long for synchronous generation (max "@ + decimal(limit as nat)
            + " chars). Use POST /api/generate/async for longer suffixes."@,
        details: Some(
            "Expected ~"@ + expected_text(suffix, case_insensitive)
                + " attempts. Use the async endpoint instead."@,
        ),
    }
}

/// What a request for a key pair to wait for comes to: a search, or a refusal.
pub open spec fn sync_outcome(request: RequestModel, limit: usize, processors: usize) -> Result<
    ConfigModel,
    RejectionModel,
> {
    let suffix = trimmed(request.suffix);
    match suffix_error(suffix) {
        Some(message) => Err(invalid_suffix(message)),
        None => if encode_utf8(suffix).len() > limit {
            Err(too_long_to_wait(suffix, request.case_insensitive, limit))
        } else {
            Ok(requested_search(request, processors))
        },
    }
}

/// `res` is `outcome`.
pub open spec fn config_is(
    res: Result<VanityConfig, Rejection>,
    outcome: Result<ConfigModel, RejectionModel>,
) -> bool {
    match res {
        Ok(config) => outcome == Ok::<ConfigModel, RejectionModel>(config@),
        Err(rejection) => outcome == Err::<ConfigModel, RejectionModel>(rejection@),
    }
}

/// Writes a rejection.
fn reject(status: Refusal, error: String, details: Option<String>) -> (res: Rejection)
    ensures
        res@ == (RejectionModel {
            status,
            error: error@,
            details: optional_text(details),
        }),
{
    Rejection { status, body: ErrorResponse { error, details } }
}

/// Trims and checks a suffix.
fn checked_suffix(raw: &str) -> (res: Result<String, Rejection>)
    ensures
        match res {
            Ok(suffix) => suffix@ == trimmed(raw@) && suffix_error(suffix@) is None,
            Err(rejection) => suffix_error(trimmed(raw@)) matches Some(message) && rejection@
                == invalid_suffix(message),
        },
{
    let suffix = trim_text(raw);
    match validate_suffix(suffix.as_str()) {
        Ok(_) => Ok(suffix),
        Err(message) => Err(
            reject(Refusal::BadRequest, "Invalid suffix".to_owned(), Some(message)),
        ),
    }
}

/// The expected number of attempts for a valid suffix.
fn attempts_for(suffix: &str, case_insensitive: bool) -> (res: u64)
    requires
        is_valid_suffix(suffix@),
    ensures
        res == expected_attempts(encode_utf8(suffix@).len(), case_insensitive),
{
    let len: usize = suffix.as_bytes().len();
    proof {
        estimate_of_allowed_length_is_exact(len as nat, case_insensitive);
    }
    match estimate_attempts(len, case_insensitive) {
        Some(n) => n,
        None => 0,
    }
}

/// The threads that a request gets on a machine with so many processors.
pub fn thread_budget(requested: Option<usize>, processors: usize) -> (res: usize)
    ensures
        res == thread_count(requested, processors),
{
    match requested {
        Some(n) => if n <= processors {
            n
        } else {
            processors
        },
        None => processors,
    }
}

/// Plans the search for a request to wait for, on a machine with so many processors.
pub fn plan_sync(request: &GenerateRequest, limit: usize, processors: usize) -> (res: Result<
    VanityConfig,
    Rejection,
>)
    ensures
        config_is(res, sync_outcome(request@, limit, processors)),
{
    let suffix = checked_suffix(request.suffix.as_str())?;
    if suffix.as_str().as_bytes().len() > limit {
        let expected = attempts_for(suffix.as_str(), request.case_insensitive);
        let error = "Suffix too long for synchronous generation (max ".to_owned().concat(
            decimal_text(limit as u64).as_str(),
        ).concat(" chars). Use POST /api/generate/async for longer suffixes.");
        let details = "Expected ~".to_owned().concat(decimal_text(expected).as_str()).concat(
            " attempts. Use the async endpoint instead.",
        );
        return Err(reject(Refusal::BadRequest, error, Some(details)));
    }
    Ok(
        VanityConfig {
            suffix,
            case_insensitive: request.case_insensitive,
            num_threads: thread_budget(request.threads, processors),
        },
    )
}

/// Plans the search for a request to wait for.
pub fn generate_sync(request: &GenerateRequest, state: &AppState) -> (res: Result<
    VanityConfig,
    Rejection,
>)
    ensures
        exists|processors: usize|
            processors >= 1 && processors_counted(processors) && config_is(
                res,
                #[trigger] sync_outcome(request@, state.max_suffix_len_sync, processors),
            ),
{
    let processors: usize = count_processors();
    plan_sync(request, state.max_suffix_len_sync, processors)
}

/// The answer to a request that was waited for, once the search has ended; an error is a
/// search that could not be run to its end.
pub fn finish_sync(outcome: Result<Option<VanityResult>, String>) -> (res: Result<
    GenerateResponse,
    Rejection,
>)
    ensures
        match outcome {
            Ok(Some(found)) => res matches Ok(response) && response@ == (KeyPairModel {
                public_key: found.public_key_base58@,
                secret_key: found.full_keypair_bytes@,
            }),
            Ok(None) => res matches Err(rejection) && rejection@ == (RejectionModel {
                status: Refusal::InternalServerError,
                error: "Generation failed unexpectedly"@,
                details: None,
            }),
            Err(reason) => res matches Err(rejection) && rejection@ == (RejectionModel {
                status: Refusal::InternalServerError,
                error: "Internal error"@,
                details: Some(reason@),
            }),
        },
{
    match outcome {
        Ok(Some(found)) => Ok(
            GenerateResponse {
                public_key: found.public_key_base58,
                secret_key: found.full_keypair_bytes,
            },
        ),
        Ok(None) => Err(
            reject(
                Refusal::InternalServerError,
                "Generation failed unexpectedly".to_owned(),
                None,
            ),
        ),
        Err(reason) => Err(
            reject(Refusal::InternalServerError, "Internal error".to_owned(), Some(reason)),
        ),
    }
}

/// Why a job is not taken on, if it is not: its suffix is not valid, or is too long, or
/// there are already too many active jobs.
pub open spec fn async_refusal(request: RequestModel, limit: usize, active: nat) -> Option<
    RejectionModel,
> {
    let suffix = trimmed(request.suffix);
    match suffix_error(suffix) {
        Some(message) => Some(invalid_suffix(message)),
        None => if encode_utf8(suffix).len() > limit {
            Some(
                RejectionModel {
                    status: Refusal::BadRequest,
                    error: "Suffix too long (max "@ + decimal(limit as nat)
                        + " chars for async generation)"@,
                    details: None,
                },
            )
        } else if active >= MAX_ACTIVE_JOBS {
            Some(
                RejectionModel {
                    status: Refusal::TooManyRequests,
                    error:
                        "Too many active jobs. Please wait for existing jobs to complete."@,
                    details: None,
                },
            )
        } else {
            None
        },
    }
}

/// A job that has just been taken on.
pub open spec fn submitted_job(id: Seq<char>) -> JobModel {
    JobModel {
        job_id: id,
        status: JobStatus::Running,
        result: None,
        progress: Some(
            ProgressModel {
                attempts: 0,
                elapsed_secs: 0,
                elapsed_subsec_nanos: 0,
                rate: "0 keys/s"@,
            },
        ),
        error: None,
    }
}

/// What is said when a job is taken on.
pub open spec fn submitted_message(suffix: Seq<char>, case_insensitive: bool) -> Seq<char> {
    "Job started. Expected ~"@ + expected_text(suffix, case_insensitive)
        + " attempts. Poll GET /api/jobs/{job_id} for status."@
}

/// A job that was taken on: the search to run, and the answer to give.
#[derive(Debug)]
pub struct AcceptedJob {
    pub config: VanityConfig,
    pub response: JobSubmittedResponse,
}

/// `res` answers `request`, given the identifier and the processors: a refused request
/// changes nothing; a job that is taken on is stored as running.
pub open spec fn submission(
    before: AppState,
    after: AppState,
    request: RequestModel,
    job_id: Seq<char>,
    processors: usize,
    res: Result<AcceptedJob, Rejection>,
) -> bool {
    let active = active_jobs(before.jobs@).len();
    &&& after.max_suffix_len_sync == before.max_suffix_len_sync
    &&& after.max_suffix_len_async == before.max_suffix_len_async
    &&& match async_refusal(request, before.max_suffix_len_async, active) {
        Some(refusal) => {
            &&& res matches Err(rejection)
            &&& rejection@ == refusal
            &&& after.jobs@ == before.jobs@
        },
        None => {
            &&& res matches Ok(accepted)
            &&& accepted.config@ == requested_search(request, processors)
            &&& accepted.response.job_id@ == job_id
            &&& accepted.response.status@ == "running"@
            &&& accepted.response.message@ == submitted_message(
                trimmed(request.suffix),
                request.case_insensitive,
            )
            &&& after.jobs@ == before.jobs@.insert(job_id, submitted_job(job_id))
        },
    }
}

/// Decides whether a job is taken on, and trims its suffix.
fn check_job(state: &AppState, request: &GenerateRequest) -> (res: Result<String, Rejection>)
    ensures
        ({
            let active = active_jobs(state.jobs@).len();
            match res {
                Ok(suffix) => {
                    &&& suffix@ == trimmed(request@.suffix)
                    &&& async_refusal(request@, state.max_suffix_len_async, active) is None
                },
                Err(rejection) => async_refusal(request@, state.max_suffix_len_async, active)
                    == Some(rejection@),
            }
        }),
{
    let suffix = checked_suffix(request.suffix.as_str())?;
    if suffix.as_str().as_bytes().len() > state.max_suffix_len_async {
        let error = "Suffix too long (max ".to_owned().concat(
            decimal_text(state.max_suffix_len_async as u64).as_str(),
        ).concat(" chars for async generation)");
        return Err(reject(Refusal::BadRequest, error, None));
    }
    if state.active_job_count() >= MAX_ACTIVE_JOBS {
        return Err(
            reject(
                Refusal::TooManyRequests,
                "Too many active jobs. Please wait for existing jobs to complete.".to_owned(),
                None,
            ),
        );
    }
    Ok(suffix)
}

/// Stores a job that is taken on as running.
fn store_job(
    state: &mut AppState,
    request: &GenerateRequest,
    suffix: String,
    job_id: String,
    processors: usize,
) -> (res: AcceptedJob)
    requires
        suffix@ == trimmed(request@.suffix),
        async_refusal(
            request@,
            old(state).max_suffix_len_async,
            active_jobs(old(state).jobs@).len(),
        ) is None,
    ensures
        submission(*old(state), *final(state), request@, job_id@, processors, Ok(res)),
        jobs_wf(old(state).jobs@) ==> jobs_wf(final(state).jobs@),
{
    let expected = attempts_for(suffix.as_str(), request.case_insensitive);
    let message = "Job started. Expected ~".to_owned().concat(
        decimal_text(expected).as_str(),
    ).concat(" attempts. Poll GET /api/jobs/{job_id} for status.");
    proof {
        change_of_active_jobs(state.jobs@, job_id@, submitted_job(job_id@));
    }
    state.jobs.insert(
        job_id.clone(),
        JobStatusResponse {
            job_id: job_id.clone(),
            status: JobStatus::Running,
            result: None,
            progress: Some(
                JobProgress {
                    attempts: 0,
                    elapsed_secs: 0,
                    elapsed_subsec_nanos: 0,
                    rate: "0 keys/s".to_owned(),
                },
            ),
            error: None,
        },
    );
    AcceptedJob {
        config: VanityConfig {
            suffix,
            case_insensitive: request.case_insensitive,
            num_threads: thread_budget(request.threads, processors),
        },
        response: JobSubmittedResponse { job_id, status: "running".to_owned(), message },
    }
}

/// Takes a job on under the given identifier, on a machine with so many processors, or
/// refuses it.
pub fn submit_job(
    state: &mut AppState,
    request: &GenerateRequest,
    job_id: String,
    processors: usize,
) -> (res: Result<AcceptedJob, Rejection>)
    ensures
        submission(*old(state), *final(state), request@, job_id@, processors, res),
        jobs_wf(old(state).jobs@) ==> jobs_wf(final(state).jobs@),
{
    let suffix = check_job(state, request)?;
    Ok(store_job(state, request, suffix, job_id, processors))
}

/// A lower-case hexadecimal digit.
pub open spec fn is_lower_hex(c: char) -> bool {
    '0' <= c <= '9' || 'a' <= c <= 'f'
}

/// The text of a random UUID: 32 lower-case hexadecimal digits in groups of 8, 4, 4, 4
/// and 12, with the version 4 and the variant of RFC 9562.
pub open spec fn is_random_uuid(s: Seq<char>) -> bool {
    &&& s.len() == 36
    &&& s[8] == '-' && s[13] == '-' && s[18] == '-' && s[23] == '-'
    &&& forall|i: int|
        0 <= i < 36 && i != 8 && i != 13 && i != 18 && i != 23 ==> is_lower_hex(#[trigger] s[i])
    &&& s[14] == '4'
    &&& s[19] == '8' || s[19] == '9' || s[19] == 'a' || s[19] == 'b'
}

/// Calls `Uuid::new_v4` and writes the value with its `to_string`. Claims the form of the
/// text; which identifier is drawn is left to chance. The call panics if the operating
/// system has no randomness to give.
#[verifier::external_body]
fn uuid_new_v4() -> (res: String)
    ensures
        is_random_uuid(res@),
{
    Uuid::new_v4().to_string()
}

/// The identifier was drawn at random. A contract that says so can be met only by drawing it.
pub closed spec fn freshly_drawn(id: Seq<char>) -> bool {
    exists|text: String| #[trigger] call_ensures(uuid_new_v4, (), text) && text@ == id
}

/// Takes a job on under a fresh identifier, or refuses it.
pub fn generate_async(request: &GenerateRequest, state: &mut AppState) -> (res: Result<
    AcceptedJob,
    Rejection,
>)
    ensures
        exists|job_id: Seq<char>, processors: usize|
            {
                &&& #[trigger] submission(
                    *old(state),
                    *final(state),
                    request@,
                    job_id,
                    processors,
                    res,
                )
                &&& res is Ok ==> is_random_uuid(job_id) && processors >= 1
                &&& res is Ok ==> freshly_drawn(job_id) && processors_counted(processors)
            },
        jobs_wf(old(state).jobs@) ==> jobs_wf(final(state).jobs@),
{
    match check_job(state, request) {
        Ok(suffix) => {
            let job_id = uuid_new_v4();
            let processors: usize = count_processors();
            assert(freshly_drawn(job_id@));
            Ok(store_job(state, request, suffix, job_id, processors))
        },
        Err(rejection) => {
            let res = Err(rejection);
            assert(submission(*old(state), *state, request@, Seq::empty(), 1, res));
            res
        },
    }
}

/// The identifier of a job that is taken on is what `Uuid::new_v4` gave.
proof fn job_identifier_comes_from_the_generator(
    before: AppState,
    after: AppState,
    request: &GenerateRequest,
    accepted: AcceptedJob,
)
    requires
        exists|state: &mut AppState|
            {
                &&& *state == before
                &&& *final(state) == after
                &&& #[trigger] call_ensures(generate_async, (request, state), Ok(accepted))
            },
    ensures
        exists|text: String| #[trigger]
            call_ensures(uuid_new_v4, (), text) && text@ == accepted.response.job_id@,
{
}

/// The jobs after `job` was put under `id`, if there is a job under it.
pub open spec fn with_job(jobs: Jobs, id: Seq<char>, job: JobModel) -> Jobs {
    if jobs.contains_key(id) {
        jobs.insert(id, job)
    } else {
        jobs
    }
}

/// The job with another progress.
pub open spec fn progressed_job(job: JobModel, progress: ProgressModel) -> JobModel {
    JobModel { progress: Some(progress), ..job }
}

/// The job once its search has ended: completed with the key pair, or failed.
pub open spec fn finished_job(
    job: JobModel,
    outcome: Option<VanityResult>,
    elapsed_secs: u64,
    elapsed_subsec_nanos: u32,
    rate: Seq<char>,
) -> JobModel {
    match outcome {
        Some(found) => JobModel {
            job_id: job.job_id,
            status: JobStatus::Completed,
            result: Some(
                KeyPairModel {
                    public_key: found.public_key_base58@,
                    secret_key: found.full_keypair_bytes@,
                },
            ),
            progress: Some(
                ProgressModel {
                    attempts: found.attempts,
                    elapsed_secs,
                    elapsed_subsec_nanos,
                    rate,
                },
            ),
            error: None,
        },
        None => JobModel {
            status: JobStatus::Failed,
            error: Some("Generation failed unexpectedly"@),
            ..job
        },
    }
}

/// Notes how far a job has come. A job that is gone stays gone.
pub fn record_progress(state: &mut AppState, job_id: &str, progress: JobProgress)
    ensures
        final(state).max_suffix_len_sync == old(state).max_suffix_len_sync,
        final(state).max_suffix_len_async == old(state).max_suffix_len_async,
        final(state).jobs@ == with_job(
            old(state).jobs@,
            job_id@,
            progressed_job(old(state).jobs@[job_id@], progress@),
        ),
        jobs_wf(old(state).jobs@) ==> jobs_wf(final(state).jobs@),
{
    if let Some(job) = state.jobs.get(job_id) {
        let mut job = job;
        job.progress = Some(progress);
        proof {
            change_of_active_jobs(state.jobs@, job_id@, job@);
            active_jobs_keep_active(state.jobs@, job_id@);
        }
        state.jobs.update(job_id, job);
    }
}

/// Notes the end of a job's search. A job that is gone stays gone.
pub fn finish_job(
    state: &mut AppState,
    job_id: &str,
    outcome: Option<VanityResult>,
    elapsed_secs: u64,
    elapsed_subsec_nanos: u32,
    rate: String,
)
    ensures
        final(state).max_suffix_len_sync == old(state).max_suffix_len_sync,
        final(state).max_suffix_len_async == old(state).max_suffix_len_async,
        final(state).jobs@ == with_job(
            old(state).jobs@,
            job_id@,
            finished_job(
                old(state).jobs@[job_id@],
                outcome,
                elapsed_secs,
                elapsed_subsec_nanos,
                rate@,
            ),
        ),
        jobs_wf(old(state).jobs@) && (old(state).jobs@.contains_key(job_id@)
            ==> old(state).jobs@[job_id@].status.is_active()) ==> jobs_wf(final(state).jobs@),
{
    if let Some(job) = state.jobs.get(job_id) {
        let mut job = job;
        match outcome {
            Some(found) => {
                job.status = JobStatus::Completed;
                job.result = Some(
                    GenerateResultPayload {
                        public_key: found.public_key_base58,
                        secret_key: found.full_keypair_bytes,
                    },
                );
                job.progress = Some(
                    JobProgress {
                        attempts: found.attempts,
                        elapsed_secs,
                        elapsed_subsec_nanos,
                        rate,
                    },
                );
                job.error = None;
            },
            None => {
                job.status = JobStatus::Failed;
                job.error = Some("Generation failed unexpectedly".to_owned());
            },
        }
        proof {
            change_of_active_jobs(state.jobs@, job_id@, job@);
        }
        state.jobs.update(job_id, job);
    }
}

/// What is answered when the job with an identifier is asked for.
pub open spec fn status_answer(jobs: Jobs, id: Seq<char>) -> Result<JobModel, RejectionModel> {
    if jobs.contains_key(id) {
        Ok(jobs[id])
    } else {
        Err(
            RejectionModel {
                status: Refusal::NotFound,
                error: "Job not found"@,
                details: Some("No job with ID: "@ + id),
            },
        )
    }
}

/// The job with the given identifier.
pub fn get_job_status(job_id: &str, state: &AppState) -> (res: Result<
    JobStatusResponse,
    Rejection,
>)
    ensures
        match res {
            Ok(job) => status_answer(state.jobs@, job_id@) == Ok::<JobModel, RejectionModel>(job@),
            Err(rejection) => status_answer(state.jobs@, job_id@) == Err::<
                JobModel,
                RejectionModel,
            >(rejection@),
        },
{
    match state.jobs.get(job_id) {
        Some(job) => Ok(job),
        None => Err(
            reject(
                Refusal::NotFound,
                "Job not found".to_owned(),
                Some("No job with ID: ".to_owned().concat(job_id)),
            ),
        ),
    }
}

/// `listed` holds the jobs under `ids`, which are all identifiers of `jobs`, each once.
pub open spec fn listing(
    ids: Seq<Seq<char>>,
    listed: Seq<JobStatusResponse>,
    jobs: Jobs,
) -> bool {
    &&& ids.no_duplicates()
    &&& ids.to_set() == jobs.dom()
    &&& listed.len() == ids.len()
    &&& forall|i: int| 0 <= i < ids.len() ==> (#[trigger] listed[i])@ == jobs[ids[i]]
}

/// All jobs, in no particular order.
pub fn list_jobs(state: &AppState) -> (res: Vec<JobStatusResponse>)
    ensures
        exists|ids: Seq<Seq<char>>| #[trigger] listing(ids, res@, state.jobs@),
{
    let entries = state.jobs.entries();
    let mut jobs: Vec<JobStatusResponse> = Vec::new();
    for i in 0..entries.len()
        invariant
            lists(entries@, state.jobs@),
            jobs@.len() == i,
            forall|k: int| 0 <= k < i ==> (#[trigger] jobs@[k])@ == entries@[k].1@,
    {
        jobs.push(entries[i].1.clone());
    }
    proof {
        let ids = Seq::new(entries@.len(), |k: int| entries@[k].0@);
        assert forall|id: Seq<char>| ids.to_set().contains(id) == state.jobs@.dom().contains(
            id,
        ) by {
            if ids.to_set().contains(id) {
                let k = choose|k: int| 0 <= k < ids.len() && ids[k] == id;
                assert(state.jobs@.contains_key(entries@[k].0@));
            }
            if state.jobs@.contains_key(id) {
                let k = choose|k: int|
                    0 <= k < entries@.len() && (#[trigger] entries@[k]).0@ == id;
                assert(ids[k] == id);
            }
        }
        assert(ids.to_set() =~= state.jobs@.dom());
        assert(listing(ids, jobs@, state.jobs@));
    }
    jobs
}

/// Why a job is not deleted, if it is not: there is none, or it is still active.
pub open spec fn delete_refusal(jobs: Jobs, id: Seq<char>) -> Option<RejectionModel> {
    if !jobs.contains_key(id) {
        Some(
            RejectionModel {
                status: Refusal::NotFound,
                error: "Job not found"@,
                details: None,
            },
        )
    } else if jobs[id].status.is_active() {
        Some(
            RejectionModel {
                status: Refusal::Conflict,
                error: "Cannot delete a running job"@,
                details: None,
            },
        )
    } else {
        None
    }
}

/// Deletes a job that is no longer active.
pub fn delete_job(job_id: &str, state: &mut AppState) -> (res: Result<
    JobDeletedResponse,
    Rejection,
>)
    ensures
        final(state).max_suffix_len_sync == old(state).max_suffix_len_sync,
        final(state).max_suffix_len_async == old(state).max_suffix_len_async,
        match delete_refusal(old(state).jobs@, job_id@) {
            Some(refusal) => {
                &&& res matches Err(rejection)
                &&& rejection@ == refusal
                &&& final(state).jobs@ == old(state).jobs@
            },
            None => {
                &&& res matches Ok(response)
                &&& response.message@ == "Job deleted"@
                &&& response.job_id@ == job_id@
                &&& final(state).jobs@ == old(state).jobs@.remove(job_id@)
            },
        },
        jobs_wf(old(state).jobs@) ==> jobs_wf(final(state).jobs@),
{
    match state.jobs.get(job_id) {
        Some(job) => {
            if job.status.active() {
                return Err(
                    reject(Refusal::Conflict, "Cannot delete a running job".to_owned(), None),
                );
            }
            proof {
                assert(active_jobs(state.jobs@.remove(job_id@)) =~= active_jobs(state.jobs@));
            }
            state.jobs.remove(job_id);
            Ok(
                JobDeletedResponse {
                    message: "Job deleted".to_owned(),
                    job_id: job_id.to_owned(),
                },
            )
        },
        None => Err(reject(Refusal::NotFound, "Job not found".to_owned(), None)),
    }
}

/// `res` says how hard the suffix of the request is to find, or why it is not valid.
pub open spec fn assessment(
    request: RequestModel,
    processors: usize,
    res: Result<EstimateResponse, Rejection>,
) -> bool {
    let suffix = trimmed(request.suffix);
    match suffix_error(suffix) {
        Some(message) => {
            &&& res matches Err(rejection)
            &&& rejection@ == invalid_suffix(message)
        },
        None => {
            &&& res matches Ok(response)
            &&& response.suffix@ == suffix
            &&& response.case_insensitive == request.case_insensitive
            &&& response.expected_attempts == expected_attempts(
                encode_utf8(suffix).len(),
                request.case_insensitive,
            )
            &&& response.difficulty@ == "1 in "@ + expected_text(suffix, request.case_insensitive)
            &&& response.threads == processors
        },
    }
}

/// Says how hard a suffix is to find, on a machine with so many processors.
pub fn assess(request: &GenerateRequest, processors: usize) -> (res: Result<
    EstimateResponse,
    Rejection,
>)
    ensures
        assessment(request@, processors, res),
{
    let suffix = checked_suffix(request.suffix.as_str())?;
    let expected = attempts_for(suffix.as_str(), request.case_insensitive);
    let difficulty = "1 in ".to_owned().concat(decimal_text(expected).as_str());
    Ok(
        EstimateResponse {
            suffix,
            case_insensitive: request.case_insensitive,
            expected_attempts: expected,
            difficulty,
            threads: processors,
        },
    )
}

/// Says how hard a suffix is to find.
pub fn estimate(request: &GenerateRequest) -> (res: Result<EstimateResponse, Rejection>)
    ensures
        exists|processors: usize|
            {
                &&& processors >= 1
                &&& processors_counted(processors)
                &&& #[trigger] assessment(request@, processors, res)
            },
{
    let processors: usize = count_processors();
    assess(request, processors)
}

/// `res` says that the service, in the given version, is up, how many threads the machine
/// can run at once, and how many of the jobs are active.
pub open spec fn health_answer(
    jobs: Jobs,
    version: Seq<char>,
    processors: usize,
    res: HealthResponse,
) -> bool {
    &&& res.status@ == "ok"@
    &&& res.version@ == version
    &&& res.available_threads == processors
    &&& res.active_jobs == active_jobs(jobs).len()
}

/// Says that the service, in the given version, is up, and how busy it is, on a machine with
/// so many processors.
pub fn report_health(state: &AppState, version: &str, processors: usize) -> (res: HealthResponse)
    ensures
        health_answer(state.jobs@, version@, processors, res),
{
    HealthResponse {
        status: "ok".to_owned(),
        version: version.to_owned(),
        available_threads: processors,
        active_jobs: state.active_job_count(),
    }
}

/// Says that the service, in the given version, is up, and how busy it is. The number of
/// processors is what the machine was asked for; it is left open, beyond that there is at
/// least one.
pub fn health(state: &AppState, version: &str) -> (res: HealthResponse)
    ensures
        exists|processors: usize|
            {
                &&& processors >= 1
                &&& processors_counted(processors)
                &&& #[trigger] health_answer(state.jobs@, version@, processors, res)
            },
{
    let processors: usize = count_processors();
    report_health(state, version, processors)
}

proof fn active_jobs_keep_active(jobs: Jobs, id: Seq<char>)
    requires
        jobs.contains_key(id),
    ensures
        jobs[id].status.is_active() ==> active_jobs(jobs).insert(id) == active_jobs(jobs),
        !jobs[id].status.is_active() ==> active_jobs(jobs).remove(id) == active_jobs(jobs),
{
    if jobs[id].status.is_active() {
        assert(active_jobs(jobs).insert(id) =~= active_jobs(jobs));
    } else {
        assert(active_jobs(jobs).remove(id) =~= active_jobs(jobs));
    }
}

/// How the active jobs change when a job is put under an identifier.
pub proof fn change_of_active_jobs(jobs: Jobs, id: Seq<char>, job: JobModel)
    ensures
        active_jobs(jobs.insert(id, job)) == if job.status.is_active() {
            active_jobs(jobs).insert(id)
        } else {
            active_jobs(jobs).remove(id)
        },
{
    let after = active_jobs(jobs.insert(id, job));
    if job.status.is_active() {
        assert(after =~= active_jobs(jobs).insert(id));
    } else {
        assert(after =~= active_jobs(jobs).remove(id));
    }
}

} // verus!
