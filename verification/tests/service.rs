use solana_vanity::api::{
    assess, delete_job, estimate, finish_job, finish_sync, generate_async, generate_sync,
    get_job_status, health, list_jobs, plan_sync, record_progress, report_health, submit_job,
    thread_budget,
};
use solana_vanity::jobs::{AppState, MAX_ACTIVE_JOBS};
use solana_vanity::keys::Candidate;
use solana_vanity::models::{GenerateRequest, JobProgress, JobStatus, Refusal, Rejection};

fn request(suffix: &str) -> GenerateRequest {
    GenerateRequest { suffix: suffix.to_string(), case_insensitive: false, threads: None }
}

fn assert_rejected(rejection: &Rejection, status: Refusal, error: &str, details: Option<&str>) {
    assert_eq!(rejection.status, status);
    assert_eq!(rejection.body.error, error);
    assert_eq!(rejection.body.details.as_deref(), details);
}

fn submit(state: &mut AppState, id: &str) {
    submit_job(state, &request("abc"), id.to_string(), 2).unwrap();
}

fn fail(state: &mut AppState, id: &str) {
    finish_job(state, id, None, 1, 0, String::new());
}

#[test]
fn new_state_is_empty() {
    let state = AppState::new();
    assert_eq!(state.max_suffix_len_sync, 4);
    assert_eq!(state.max_suffix_len_async, 7);
    assert_eq!(state.active_job_count(), 0);
    assert!(list_jobs(&state).is_empty());
}

#[test]
fn thread_budget_is_capped() {
    assert_eq!(thread_budget(None, 8), 8);
    assert_eq!(thread_budget(Some(3), 8), 3);
    assert_eq!(thread_budget(Some(8), 8), 8);
    assert_eq!(thread_budget(Some(9), 8), 8);
    assert_eq!(thread_budget(Some(0), 8), 0);
}

#[test]
fn sync_plan_trims_and_caps() {
    let wish = GenerateRequest {
        suffix: "  pump\n".to_string(),
        case_insensitive: true,
        threads: Some(64),
    };
    let config = plan_sync(&wish, 4, 6).unwrap();
    assert_eq!(config.suffix, "pump");
    assert!(config.case_insensitive);
    assert_eq!(config.num_threads, 6);
}

#[test]
fn sync_refuses_invalid_suffix() {
    let rejection = plan_sync(&request("  "), 4, 6).unwrap_err();
    let details = Some("Suffix must not be empty");
    assert_rejected(&rejection, Refusal::BadRequest, "Invalid suffix", details);
    let rejection = plan_sync(&request("ab0"), 4, 6).unwrap_err();
    let details = Some(
        "Character '0' at position 2 is not valid base58. Note: base58 excludes 0, O, I, l",
    );
    assert_rejected(&rejection, Refusal::BadRequest, "Invalid suffix", details);
}

#[test]
fn sync_refuses_long_suffix() {
    let rejection = generate_sync(&request("abcde"), &AppState::new()).unwrap_err();
    assert_rejected(
        &rejection,
        Refusal::BadRequest,
        "Suffix too long for synchronous generation (max 4 chars). Use POST /api/generate/async for longer suffixes.",
        Some("Expected ~656356768 attempts. Use the async endpoint instead."),
    );
    let folded =
        GenerateRequest { suffix: "abcde".to_string(), case_insensitive: true, threads: None };
    let rejection = generate_sync(&folded, &AppState::new()).unwrap_err();
    assert_eq!(
        rejection.body.details.as_deref(),
        Some("Expected ~45435424 attempts. Use the async endpoint instead.")
    );
}

#[test]
fn sync_uses_the_processors_of_the_machine() {
    let config = generate_sync(&request("abcd"), &AppState::new()).unwrap();
    assert_eq!(config.suffix, "abcd");
    assert!(!config.case_insensitive);
    assert_eq!(config.num_threads, num_cpus::get());
}

#[test]
fn sync_answers() {
    let found = Candidate::draw().to_result(17);
    let response = finish_sync(Ok(Some(found.clone()))).unwrap();
    assert_eq!(response.public_key, found.public_key_base58);
    assert_eq!(response.secret_key, found.full_keypair_bytes);
    assert_rejected(
        &finish_sync(Ok(None)).unwrap_err(),
        Refusal::InternalServerError,
        "Generation failed unexpectedly",
        None,
    );
    assert_rejected(
        &finish_sync(Err("pool is gone".to_string())).unwrap_err(),
        Refusal::InternalServerError,
        "Internal error",
        Some("pool is gone"),
    );
}

#[test]
fn submitted_job_runs() {
    let mut state = AppState::new();
    let wish = GenerateRequest {
        suffix: " abcdefg ".to_string(),
        case_insensitive: false,
        threads: Some(1),
    };
    let accepted = submit_job(&mut state, &wish, "job-1".to_string(), 4).unwrap();
    assert_eq!(accepted.config.suffix, "abcdefg");
    assert_eq!(accepted.config.num_threads, 1);
    assert_eq!(accepted.response.job_id, "job-1");
    assert_eq!(accepted.response.status, "running");
    assert_eq!(
        accepted.response.message,
        "Job started. Expected ~2207984167552 attempts. Poll GET /api/jobs/{job_id} for status."
    );
    let job = get_job_status("job-1", &state).unwrap();
    assert_eq!(job.job_id, "job-1");
    assert_eq!(job.status, JobStatus::Running);
    assert!(job.result.is_none());
    assert!(job.error.is_none());
    let progress = job.progress.unwrap();
    assert_eq!(progress.attempts, 0);
    assert_eq!(progress.elapsed_secs, 0);
    assert_eq!(progress.elapsed_subsec_nanos, 0);
    assert_eq!(progress.rate, "0 keys/s");
    assert_eq!(state.active_job_count(), 1);
}

#[test]
fn job_identifiers_are_random_uuids() {
    let mut state = AppState::new();
    let first = generate_async(&request("abc"), &mut state).unwrap();
    let second = generate_async(&request("abc"), &mut state).unwrap();
    assert_ne!(first.response.job_id, second.response.job_id);
    assert_eq!(first.config.num_threads, num_cpus::get());
    for id in [&first.response.job_id, &second.response.job_id] {
        assert_eq!(id.len(), 36);
        for (i, c) in id.chars().enumerate() {
            match i {
                8 | 13 | 18 | 23 => assert_eq!(c, '-'),
                14 => assert_eq!(c, '4'),
                19 => assert!("89ab".contains(c)),
                _ => assert!("0123456789abcdef".contains(c)),
            }
        }
        assert_eq!(&get_job_status(id, &state).unwrap().job_id, id);
    }
}

#[test]
fn async_refuses_invalid_and_long_suffixes() {
    let mut state = AppState::new();
    let rejection = submit_job(&mut state, &request(""), "x".to_string(), 1).unwrap_err();
    let details = Some("Suffix must not be empty");
    assert_rejected(&rejection, Refusal::BadRequest, "Invalid suffix", details);
    let rejection = submit_job(&mut state, &request("12345678"), "x".to_string(), 1).unwrap_err();
    assert_rejected(
        &rejection,
        Refusal::BadRequest,
        "Suffix too long (max 7 chars for async generation)",
        None,
    );
    assert!(list_jobs(&state).is_empty());
}

#[test]
fn no_more_than_five_jobs_are_active() {
    let mut state = AppState::new();
    for i in 0..MAX_ACTIVE_JOBS {
        submit(&mut state, &i.to_string());
    }
    assert_eq!(state.active_job_count(), 5);
    let rejection = submit_job(&mut state, &request("abc"), "x".to_string(), 1).unwrap_err();
    assert_rejected(
        &rejection,
        Refusal::TooManyRequests,
        "Too many active jobs. Please wait for existing jobs to complete.",
        None,
    );
    // The suffix is looked at first.
    let rejection = submit_job(&mut state, &request("0"), "x".to_string(), 1).unwrap_err();
    assert_eq!(rejection.status, Refusal::BadRequest);
    assert_eq!(list_jobs(&state).len(), 5);
    fail(&mut state, "3");
    assert_eq!(state.active_job_count(), 4);
    submit(&mut state, "x");
    assert_eq!(state.active_job_count(), 5);
    assert_eq!(list_jobs(&state).len(), 6);
}

#[test]
fn what_may_be_waited_for_may_be_submitted() {
    for suffix in ["a", "ab", "abc", "abcd", " abcd "] {
        let mut state = AppState::new();
        assert!(generate_sync(&request(suffix), &state).is_ok());
        assert!(generate_async(&request(suffix), &mut state).is_ok());
    }
}

#[test]
fn progress_is_shown() {
    let mut state = AppState::new();
    submit(&mut state, "a");
    submit(&mut state, "b");
    let progress = JobProgress {
        attempts: 4096,
        elapsed_secs: 2,
        elapsed_subsec_nanos: 500_000_000,
        rate: "1.64K keys/s".to_string(),
    };
    record_progress(&mut state, "a", progress);
    let job = get_job_status("a", &state).unwrap();
    assert_eq!(job.status, JobStatus::Running);
    let progress = job.progress.unwrap();
    assert_eq!(progress.attempts, 4096);
    assert_eq!(progress.elapsed_secs, 2);
    assert_eq!(progress.elapsed_subsec_nanos, 500_000_000);
    assert_eq!(progress.rate, "1.64K keys/s");
    assert_eq!(get_job_status("b", &state).unwrap().progress.unwrap().attempts, 0);
}

#[test]
fn completed_job_shows_the_key() {
    let mut state = AppState::new();
    submit(&mut state, "a");
    let found = Candidate::draw().to_result(99);
    finish_job(&mut state, "a", Some(found.clone()), 3, 7, "33 keys/s".to_string());
    let job = get_job_status("a", &state).unwrap();
    assert_eq!(job.status, JobStatus::Completed);
    assert!(job.error.is_none());
    let result = job.result.unwrap();
    assert_eq!(result.public_key, found.public_key_base58);
    assert_eq!(result.secret_key, found.full_keypair_bytes);
    let progress = job.progress.unwrap();
    assert_eq!(progress.attempts, 99);
    assert_eq!(progress.elapsed_secs, 3);
    assert_eq!(progress.elapsed_subsec_nanos, 7);
    assert_eq!(progress.rate, "33 keys/s");
    assert_eq!(state.active_job_count(), 0);
}

#[test]
fn failed_job_shows_the_error() {
    let mut state = AppState::new();
    submit(&mut state, "a");
    fail(&mut state, "a");
    let job = get_job_status("a", &state).unwrap();
    assert_eq!(job.status, JobStatus::Failed);
    assert_eq!(job.error.as_deref(), Some("Generation failed unexpectedly"));
    assert!(job.result.is_none());
    assert_eq!(job.progress.unwrap().attempts, 0);
}

#[test]
fn unknown_job_is_not_found() {
    let mut state = AppState::new();
    assert_rejected(
        &get_job_status("nope", &state).unwrap_err(),
        Refusal::NotFound,
        "Job not found",
        Some("No job with ID: nope"),
    );
    assert_rejected(
        &delete_job("nope", &mut state).unwrap_err(),
        Refusal::NotFound,
        "Job not found",
        None,
    );
    fail(&mut state, "nope");
    let progress = JobProgress {
        attempts: 1,
        elapsed_secs: 1,
        elapsed_subsec_nanos: 0,
        rate: String::new(),
    };
    record_progress(&mut state, "nope", progress);
    assert!(list_jobs(&state).is_empty());
}

#[test]
fn running_job_cannot_be_deleted() {
    let mut state = AppState::new();
    submit(&mut state, "a");
    assert_rejected(
        &delete_job("a", &mut state).unwrap_err(),
        Refusal::Conflict,
        "Cannot delete a running job",
        None,
    );
    assert!(get_job_status("a", &state).is_ok());
}

#[test]
fn deleted_job_is_gone() {
    let mut state = AppState::new();
    submit(&mut state, "a");
    submit(&mut state, "b");
    fail(&mut state, "a");
    let response = delete_job("a", &mut state).unwrap();
    assert_eq!(response.message, "Job deleted");
    assert_eq!(response.job_id, "a");
    assert_eq!(get_job_status("a", &state).unwrap_err().status, Refusal::NotFound);
    assert_eq!(delete_job("a", &mut state).unwrap_err().status, Refusal::NotFound);
    assert!(get_job_status("b", &state).is_ok());
    assert_eq!(state.active_job_count(), 1);
}

#[test]
fn all_jobs_are_listed_once() {
    let mut state = AppState::new();
    for id in ["a", "b", "c"] {
        submit(&mut state, id);
    }
    fail(&mut state, "b");
    let mut listed: Vec<(String, JobStatus)> =
        list_jobs(&state).into_iter().map(|job| (job.job_id, job.status)).collect();
    listed.sort_by(|x, y| x.0.cmp(&y.0));
    assert_eq!(
        listed,
        vec![
            ("a".to_string(), JobStatus::Running),
            ("b".to_string(), JobStatus::Failed),
            ("c".to_string(), JobStatus::Running),
        ]
    );
}

#[test]
fn estimates_are_reported() {
    let wish =
        GenerateRequest { suffix: " abcd".to_string(), case_insensitive: true, threads: Some(1) };
    let response = assess(&wish, 6).unwrap();
    assert_eq!(response.suffix, "abcd");
    assert!(response.case_insensitive);
    assert_eq!(response.expected_attempts, 1_336_336);
    assert_eq!(response.difficulty, "1 in 1336336");
    assert_eq!(response.threads, 6);
    let response = estimate(&request("12345678")).unwrap();
    assert_eq!(response.expected_attempts, 128_063_081_718_016);
    assert_eq!(response.difficulty, "1 in 128063081718016");
    assert_eq!(response.threads, num_cpus::get());
    let rejection = estimate(&request("123456789")).unwrap_err();
    let details =
        Some("Suffix too long (max 8 characters). Longer suffixes may take unreasonably long.");
    assert_rejected(&rejection, Refusal::BadRequest, "Invalid suffix", details);
}

#[test]
fn health_counts_active_jobs() {
    let mut state = AppState::new();
    submit(&mut state, "a");
    submit(&mut state, "b");
    fail(&mut state, "b");
    let response = health(&state, "1.2.3");
    assert_eq!(response.status, "ok");
    assert_eq!(response.version, "1.2.3");
    assert_eq!(response.available_threads, num_cpus::get());
    assert_eq!(response.active_jobs, 1);
}

#[test]
fn health_reports_the_processors_it_is_given() {
    let mut state = AppState::new();
    submit(&mut state, "a");
    for processors in [1, 7, 128] {
        let response = report_health(&state, "0.1.0", processors);
        assert_eq!(response.status, "ok");
        assert_eq!(response.version, "0.1.0");
        assert_eq!(response.available_threads, processors);
        assert_eq!(response.active_jobs, 1);
    }
}
