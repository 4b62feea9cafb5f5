//! What goes into the service and what comes out of it.

use vstd::prelude::*;

verus! {

/// A wish for a key pair.
#[derive(Debug)]
pub struct GenerateRequest {
    pub suffix: String,
    pub case_insensitive: bool,
    pub threads: Option<usize>,
}

/// The contents of a `GenerateRequest`.
pub struct RequestModel {
    pub suffix: Seq<char>,
    pub case_insensitive: bool,
    pub threads: Option<usize>,
}

impl View for GenerateRequest {
    type V = RequestModel;

    open spec fn view(&self) -> RequestModel {
        RequestModel {
            suffix: self.suffix@,
            case_insensitive: self.case_insensitive,
            threads: self.threads,
        }
    }
}

/// A key pair as it is handed out: the public key as text, and the 64 bytes of the pair.
#[derive(Debug)]
pub struct GenerateResponse {
    pub public_key: String,
    pub secret_key: Vec<u8>,
}

/// The key pair of a completed job.
#[derive(Debug)]
pub struct GenerateResultPayload {
    pub public_key: String,
    pub secret_key: Vec<u8>,
}

/// The contents of a key pair that is handed out.
#[verifier::ext_equal]
pub struct KeyPairModel {
    pub public_key: Seq<char>,
    pub secret_key: Seq<u8>,
}

impl View for GenerateResponse {
    type V = KeyPairModel;

    open spec fn view(&self) -> KeyPairModel {
        KeyPairModel { public_key: self.public_key@, secret_key: self.secret_key@ }
    }
}

impl View for GenerateResultPayload {
    type V = KeyPairModel;

    open spec fn view(&self) -> KeyPairModel {
        KeyPairModel { public_key: self.public_key@, secret_key: self.secret_key@ }
    }
}

impl Clone for GenerateResultPayload {
    fn clone(&self) -> (res: Self)
        ensures
            res@ == self@,
    {
        let secret_key = self.secret_key.clone();
        assert(secret_key@ == self.secret_key@);
        GenerateResultPayload { public_key: self.public_key.clone(), secret_key }
    }
}

/// How a job stands.
#[derive(Clone, Copy, PartialEq, Eq, Structural, Debug)]
pub enum JobStatus {
    Pending,
    Running,
    Completed,
    Failed,
}

impl JobStatus {
    /// The job still takes up a place among the active jobs.
    pub open spec fn is_active(self) -> bool {
        self == JobStatus::Running || self == JobStatus::Pending
    }

    /// Tells whether the job still takes up a place among the active jobs.
    pub fn active(self) -> (res: bool)
        ensures
            res == self.is_active(),
    {
        self == JobStatus::Running || self == JobStatus::Pending
    }
}

/// How far a job has come. The elapsed time is given in whole seconds and the
/// nanoseconds beyond them.
#[derive(Debug)]
pub struct JobProgress {
    pub attempts: u64,
    pub elapsed_secs: u64,
    pub elapsed_subsec_nanos: u32,
    pub rate: String,
}

/// The contents of a `JobProgress`.
pub struct ProgressModel {
    pub attempts: u64,
    pub elapsed_secs: u64,
    pub elapsed_subsec_nanos: u32,
    pub rate: Seq<char>,
}

impl View for JobProgress {
    type V = ProgressModel;

    open spec fn view(&self) -> ProgressModel {
        ProgressModel {
            attempts: self.attempts,
            elapsed_secs: self.elapsed_secs,
            elapsed_subsec_nanos: self.elapsed_subsec_nanos,
            rate: self.rate@,
        }
    }
}

impl Clone for JobProgress {
    fn clone(&self) -> (res: Self)
        ensures
            res@ == self@,
    {
        JobProgress {
            attempts: self.attempts,
            elapsed_secs: self.elapsed_secs,
            elapsed_subsec_nanos: self.elapsed_subsec_nanos,
            rate: self.rate.clone(),
        }
    }
}

/// A job, as it is stored and as it is shown.
#[derive(Debug)]
pub struct JobStatusResponse {
    pub job_id: String,
    pub status: JobStatus,
    pub result: Option<GenerateResultPayload>,
    pub progress: Option<JobProgress>,
    pub error: Option<String>,
}

/// The contents of a `JobStatusResponse`.
pub struct JobModel {
    pub job_id: Seq<char>,
    pub status: JobStatus,
    pub result: Option<KeyPairModel>,
    pub progress: Option<ProgressModel>,
    pub error: Option<Seq<char>>,
}

/// The text in an optional string.
pub open spec fn optional_text(s: Option<String>) -> Option<Seq<char>> {
    match s {
        Some(t) => Some(t@),
        None => None,
    }
}

impl View for JobStatusResponse {
    type V = JobModel;

    open spec fn view(&self) -> JobModel {
        JobModel {
            job_id: self.job_id@,
            status: self.status,
            result: match self.result {
                Some(r) => Some(r@),
                None => None,
            },
            progress: match self.progress {
                Some(p) => Some(p@),
                None => None,
            },
            error: optional_text(self.error),
        }
    }
}

impl Clone for JobStatusResponse {
    fn clone(&self) -> (res: Self)
        ensures
            res@ == self@,
    {
        JobStatusResponse {
            job_id: self.job_id.clone(),
            status: self.status,
            result: match &self.result {
                Some(r) => Some(r.clone()),
                None => None,
            },
            progress: match &self.progress {
                Some(p) => Some(p.clone()),
                None => None,
            },
            error: match &self.error {
                Some(e) => Some(e.clone()),
                None => None,
            },
        }
    }
}

impl JobModel {
    /// A job has a key pair exactly if it is completed, and an error exactly if it failed.
    pub open spec fn wf(self) -> bool {
        &&& self.result is Some <==> self.status == JobStatus::Completed
        &&& self.error is Some <==> self.status == JobStatus::Failed
    }
}

/// The answer to a submitted job.
#[derive(Debug)]
pub struct JobSubmittedResponse {
    pub job_id: String,
    pub status: String,
    pub message: String,
}

/// The answer to a deleted job.
#[derive(Debug)]
pub struct JobDeletedResponse {
    pub message: String,
    pub job_id: String,
}

/// The state of the service.
#[derive(Debug)]
pub struct HealthResponse {
    pub status: String,
    pub version: String,
    pub available_threads: usize,
    pub active_jobs: usize,
}

/// How hard a suffix is to find.
#[derive(Debug)]
pub struct EstimateResponse {
    pub suffix: String,
    pub case_insensitive: bool,
    pub expected_attempts: u64,
    pub difficulty: String,
    pub threads: usize,
}

/// Why a request is refused.
#[derive(Debug)]
pub struct ErrorResponse {
    pub error: String,
    pub details: Option<String>,
}

/// The statuses with which a request is refused.
#[derive(Clone, Copy, PartialEq, Eq, Structural, Debug)]
pub enum Refusal {
    BadRequest,
    NotFound,
    Conflict,
    TooManyRequests,
    InternalServerError,
}

/// A refused request: the status and what is said.
#[derive(Debug)]
pub struct Rejection {
    pub status: Refusal,
    pub body: ErrorResponse,
}

/// The contents of a `Rejection`.
pub struct RejectionModel {
    pub status: Refusal,
    pub error: Seq<char>,
    pub details: Option<Seq<char>>,
}

impl View for Rejection {
    type V = RejectionModel;

    open spec fn view(&self) -> RejectionModel {
        RejectionModel {
            status: self.status,
            error: self.body.error@,
            details: optional_text(self.body.details),
        }
    }
}

} // verus!
