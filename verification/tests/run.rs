use solana_vanity::api::{delete_job, get_job_status, submit_job};
use solana_vanity::jobs::AppState;
use solana_vanity::keys::Candidate;
use solana_vanity::models::{GenerateRequest, JobStatus, Refusal};
use solana_vanity::run::{next_report, JobRun, RunPhase};

fn state_with(ids: &[&str]) -> AppState {
    let mut state = AppState::new();
    for id in ids {
        let request = GenerateRequest {
            suffix: "abc".to_string(),
            case_insensitive: false,
            threads: None,
        };
        submit_job(&mut state, &request, id.to_string(), 1).unwrap();
    }
    state
}

fn tick(run: &mut JobRun, state: &mut AppState, found: bool, attempts: u64) {
    run.tick(state, found, attempts, 1, 2, format!("{} keys/s", attempts));
}

fn shown_attempts(state: &AppState, id: &str) -> u64 {
    get_job_status(id, state).unwrap().progress.unwrap().attempts
}

#[test]
fn reports_until_a_key_is_found() {
    assert!(next_report(true, 1, 2, 3, "x".to_string()).is_none());
    let report = next_report(false, 1, 2, 3, "x".to_string()).unwrap();
    assert_eq!(report.attempts, 1);
    assert_eq!(report.elapsed_secs, 2);
    assert_eq!(report.elapsed_subsec_nanos, 3);
    assert_eq!(report.rate, "x");
}

#[test]
fn a_run_completes_its_job() {
    let mut state = state_with(&["a", "b"]);
    let mut run = JobRun::new("a".to_string());
    assert_eq!(run.phase(), RunPhase::Reporting);
    for attempts in [1024, 2048, 2048] {
        tick(&mut run, &mut state, false, attempts);
        assert_eq!(shown_attempts(&state, "a"), attempts);
        assert_eq!(shown_attempts(&state, "b"), 0);
        assert_eq!(delete_job("a", &mut state).unwrap_err().status, Refusal::Conflict);
    }
    tick(&mut run, &mut state, true, 4096);
    assert_eq!(run.phase(), RunPhase::Awaiting);
    assert_eq!(shown_attempts(&state, "a"), 2048);
    let found = Candidate::draw().to_result(3000);
    run.conclude(&mut state, Some(found.clone()), 5, 6, "600 keys/s".to_string());
    assert_eq!(run.phase(), RunPhase::Finished);
    let job = get_job_status("a", &state).unwrap();
    assert_eq!(job.job_id, "a");
    assert_eq!(job.status, JobStatus::Completed);
    assert_eq!(job.result.unwrap().public_key, found.public_key_base58);
    assert!(job.error.is_none());
    assert_eq!(job.progress.unwrap().attempts, 3000);
    assert_eq!(get_job_status("b", &state).unwrap().status, JobStatus::Running);
}

#[test]
fn a_run_without_a_key_fails_its_job() {
    let mut state = state_with(&["a"]);
    let mut run = JobRun::new("a".to_string());
    tick(&mut run, &mut state, true, 0);
    run.conclude(&mut state, None, 0, 0, String::new());
    let job = get_job_status("a", &state).unwrap();
    assert_eq!(job.status, JobStatus::Failed);
    assert!(job.result.is_none());
    assert_eq!(job.error.as_deref(), Some("Generation failed unexpectedly"));
}

#[test]
fn nothing_comes_after_the_end() {
    let mut state = state_with(&["a"]);
    let mut run = JobRun::new("a".to_string());
    // Too early: the run still reports.
    run.conclude(&mut state, None, 0, 0, String::new());
    assert_eq!(run.phase(), RunPhase::Reporting);
    assert_eq!(get_job_status("a", &state).unwrap().status, JobStatus::Running);
    tick(&mut run, &mut state, true, 0);
    run.conclude(&mut state, Some(Candidate::draw().to_result(7)), 1, 0, String::new());
    tick(&mut run, &mut state, false, 9999);
    run.conclude(&mut state, None, 0, 0, String::new());
    let job = get_job_status("a", &state).unwrap();
    assert_eq!(job.status, JobStatus::Completed);
    assert_eq!(job.progress.unwrap().attempts, 7);
    delete_job("a", &mut state).unwrap();
    tick(&mut run, &mut state, false, 9999);
    run.conclude(&mut state, None, 0, 0, String::new());
    assert_eq!(get_job_status("a", &state).unwrap_err().status, Refusal::NotFound);
}
