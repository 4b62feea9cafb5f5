use ed25519_dalek::SigningKey;
use solana_vanity::keys::Candidate;
use solana_vanity::vanity::{matches_suffix, VanityConfig, VanityResult};
use solana_vanity::worker::{choose_result, Action, Batch, Event, Worker, BATCH_SIZE};
use std::sync::atomic::{AtomicBool, AtomicU64, Ordering};

fn worker_for(suffix: &str, case_insensitive: bool) -> Worker {
    Worker::new(&VanityConfig { suffix: suffix.to_string(), case_insensitive, num_threads: 1 })
}

fn assert_is_key_pair(result: &VanityResult) {
    let key = SigningKey::from_bytes(&result.secret_key_bytes);
    let public = key.verifying_key().to_bytes();
    assert_eq!(result.public_key_base58, bs58::encode(public).into_string());
    assert_eq!(result.full_keypair_bytes.len(), 64);
    assert_eq!(result.full_keypair_bytes[..32], result.secret_key_bytes);
    assert_eq!(result.full_keypair_bytes[32..], public);
}

fn result_with(attempts: u64) -> VanityResult {
    Candidate::draw().to_result(attempts)
}

#[test]
fn drawn_keys_belong_together() {
    let a = Candidate::draw();
    let b = Candidate::draw();
    let derived = SigningKey::from_bytes(a.secret_key()).verifying_key().to_bytes();
    assert_eq!(a.public_key(), &derived);
    assert_ne!(a.secret_key(), b.secret_key());
    assert_is_key_pair(&a.to_result(3));
    assert_eq!(a.to_result(3).attempts, 3);
}

#[test]
fn different_keys_have_different_texts() {
    let a = result_with(0);
    let b = result_with(0);
    assert_ne!(a.full_keypair_bytes, b.full_keypair_bytes);
    assert_ne!(a.public_key_base58, b.public_key_base58);
}

#[test]
fn empty_suffix_is_found_at_once() {
    let found = AtomicBool::new(false);
    let counter = AtomicU64::new(41);
    let mut worker = worker_for("", false);
    match worker.run_batch(&found, &counter, &None) {
        Batch::Ended(Some(result)) => {
            assert_is_key_pair(&result);
            assert_eq!(result.attempts, 42);
        }
        _ => panic!("no result"),
    }
    assert!(found.load(Ordering::SeqCst));
    assert_eq!(counter.load(Ordering::SeqCst), 42);
    assert_eq!(worker.action(), Action::Finish);
}

#[test]
fn one_character_is_found_in_a_few_batches() {
    let found = AtomicBool::new(false);
    let counter = AtomicU64::new(0);
    let mut worker = worker_for("Z", true);
    let mut full_batches = 0;
    let result = loop {
        match worker.run_batch(&found, &counter, &None) {
            Batch::Exhausted => full_batches += 1,
            Batch::Ended(result) => break result.unwrap(),
        }
    };
    assert!(result.public_key_base58.to_ascii_lowercase().ends_with('z'));
    assert_is_key_pair(&result);
    assert_eq!(result.attempts, counter.load(Ordering::SeqCst));
    assert_eq!((result.attempts - 1) / BATCH_SIZE, full_batches);
}

#[test]
fn impossible_suffix_exhausts_the_batch() {
    let found = AtomicBool::new(false);
    let counter = AtomicU64::new(5);
    let (sender, receiver) = crossbeam_channel::bounded(4);
    let progress = Some(sender);
    let mut worker = worker_for("0", false);
    for round in 1..=2 {
        assert!(matches!(worker.run_batch(&found, &counter, &progress), Batch::Exhausted));
        assert_eq!(counter.load(Ordering::SeqCst), 5 + round * BATCH_SIZE);
        assert_eq!(receiver.try_recv(), Ok(BATCH_SIZE));
        assert!(receiver.try_recv().is_err());
    }
    assert!(!found.load(Ordering::SeqCst));
    assert!(worker.result().is_none());
}

#[test]
fn a_full_channel_does_not_matter() {
    let found = AtomicBool::new(false);
    let counter = AtomicU64::new(0);
    let (sender, receiver) = crossbeam_channel::bounded(1);
    sender.try_send(7).unwrap();
    let progress = Some(sender);
    let mut worker = worker_for("0", false);
    assert!(matches!(worker.run_batch(&found, &counter, &progress), Batch::Exhausted));
    assert_eq!(receiver.try_recv(), Ok(7));
    assert!(receiver.try_recv().is_err());
    assert_eq!(counter.load(Ordering::SeqCst), BATCH_SIZE);
    drop(receiver);
    assert!(matches!(worker.run_batch(&found, &counter, &progress), Batch::Exhausted));
    assert_eq!(counter.load(Ordering::SeqCst), 2 * BATCH_SIZE);
    assert!(!found.load(Ordering::SeqCst));
}

#[test]
fn a_raised_flag_stops_the_worker() {
    let found = AtomicBool::new(true);
    let counter = AtomicU64::new(9);
    let mut worker = worker_for("", false);
    assert!(matches!(worker.run_batch(&found, &counter, &None), Batch::Ended(None)));
    assert_eq!(counter.load(Ordering::SeqCst), 9);
    assert!(worker.result().is_none());
    assert!(matches!(worker.run_batch(&found, &counter, &None), Batch::Ended(None)));
}

#[test]
fn the_shared_count_wraps() {
    let found = AtomicBool::new(false);
    let counter = AtomicU64::new(u64::MAX);
    match worker_for("", false).run_batch(&found, &counter, &None) {
        Batch::Ended(Some(result)) => assert_eq!(result.attempts, 0),
        _ => panic!("no result"),
    }
    assert_eq!(counter.load(Ordering::SeqCst), 0);
}

#[test]
fn steps_of_a_hit() {
    let hit = Candidate::draw();
    let text = hit.to_result(0).public_key_base58;
    let mut worker = worker_for(&text, false);
    assert_eq!(worker.action(), Action::ReadFlag);
    worker.step(Event::Flag(false));
    assert_eq!(worker.action(), Action::DrawKey);
    worker.step(Event::Key(Candidate::draw()));
    assert_eq!(worker.action(), Action::ReadFlag);
    worker.step(Event::Flag(false));
    worker.step(Event::Key(hit));
    assert_eq!(worker.action(), Action::RaiseFlag);
    worker.step(Event::Raised);
    assert_eq!(worker.action(), Action::AddAttempts(2));
    assert!(worker.result().is_none());
    worker.step(Event::Added(2048));
    assert_eq!(worker.action(), Action::Finish);
    let result = worker.result().unwrap();
    assert_eq!(result.attempts, 2050);
    assert_eq!(result.public_key_base58, text);
    assert_eq!(&result.secret_key_bytes, hit.secret_key());
}

#[test]
fn every_attempt_is_counted_once() {
    let mut worker = worker_for("0", false);
    let miss = Candidate::draw();
    assert!(!matches_suffix(miss.public_key(), "0", false));
    let mut taken = 0;
    let mut credited = 0;
    for _ in 0..20_000 {
        match worker.action() {
            Action::ReadFlag => worker.step(Event::Flag(false)),
            Action::DrawKey => {
                worker.step(Event::Key(miss));
                taken += 1;
            }
            Action::AddAttempts(n) => {
                assert_eq!(n, BATCH_SIZE);
                worker.step(Event::Added(credited));
                credited += n;
                assert_eq!(taken, credited);
            }
            Action::Report(n) => {
                assert_eq!(n, BATCH_SIZE);
                worker.step(Event::Reported);
            }
            other => panic!("unexpected {:?}", other),
        }
    }
    assert!(credited > 0);
    assert!(taken - credited < BATCH_SIZE);
}

/// Performs one action of a worker on a shared flag, counter and channel.
fn move_worker(worker: &mut Worker, found: &mut bool, counter: &mut u64, reports: &mut Vec<u64>) {
    let event = match worker.action() {
        Action::ReadFlag => Event::Flag(*found),
        Action::DrawKey => Event::Key(Candidate::draw()),
        Action::RaiseFlag => {
            *found = true;
            Event::Raised
        }
        Action::AddAttempts(n) => {
            let before = *counter;
            *counter += n;
            Event::Added(before)
        }
        Action::Report(n) => {
            reports.push(n);
            Event::Reported
        }
        Action::Finish => return,
    };
    worker.step(event);
}

#[test]
fn a_finished_search_has_a_key_pair() {
    // The pace of each worker in turns; the slow one sees the flag raised.
    for paces in [[1, 1, 1], [3, 1, 2], [1, 7, 7]] {
        let mut workers: Vec<Worker> = (0..3).map(|_| worker_for("z", true)).collect();
        let (mut found, mut counter, mut reports) = (false, 0, Vec::new());
        let mut seen = 0;
        while workers.iter().any(|worker| worker.action() != Action::Finish) {
            for (worker, pace) in workers.iter_mut().zip(paces) {
                for _ in 0..pace {
                    move_worker(worker, &mut found, &mut counter, &mut reports);
                    assert!(counter >= seen);
                    seen = counter;
                }
            }
        }
        assert!(found);
        let results: Vec<Option<VanityResult>> = workers.iter().map(Worker::result).collect();
        let result = choose_result(results).unwrap();
        assert_is_key_pair(&result);
        assert!(result.public_key_base58.to_ascii_lowercase().ends_with('z'));
        assert!(result.attempts <= counter);
    }
}

#[test]
fn counts_lie_within_the_search() {
    let hit = Candidate::draw();
    let text = hit.to_result(0).public_key_base58;
    let mut alone = worker_for(&text, false);
    for _ in 0..2 {
        alone.step(Event::Flag(false));
        alone.step(Event::Key(Candidate::draw()));
    }
    alone.step(Event::Flag(false));
    alone.step(Event::Key(hit));
    let (mut found, mut counter, mut reports) = (false, 100, Vec::new());
    while alone.action() != Action::Finish {
        move_worker(&mut alone, &mut found, &mut counter, &mut reports);
    }
    assert_eq!(alone.result().unwrap().attempts, 103);
    assert_eq!(counter, 103);

    // Both have a hit before either sees the flag: the later one counts both.
    let mut workers = [worker_for("", false), worker_for("", false)];
    let (mut found, mut counter, mut reports) = (false, 100, Vec::new());
    for _ in 0..4 {
        for worker in &mut workers {
            move_worker(worker, &mut found, &mut counter, &mut reports);
        }
    }
    assert_eq!(workers[0].result().unwrap().attempts, 101);
    assert_eq!(workers[1].result().unwrap().attempts, 102);
    assert_eq!(counter, 102);
}

#[test]
fn one_report_for_each_full_batch() {
    let mut worker = worker_for("0", false);
    let (mut found, mut counter, mut reports) = (false, 0, Vec::new());
    while reports.len() < 2 {
        move_worker(&mut worker, &mut found, &mut counter, &mut reports);
        let due = (worker.action() == Action::Report(BATCH_SIZE)) as u64;
        assert_eq!(counter, BATCH_SIZE * (reports.len() as u64 + due));
    }
    assert_eq!(reports, vec![BATCH_SIZE, BATCH_SIZE]);
    let mut lucky = worker_for("", false);
    reports.clear();
    while lucky.action() != Action::Finish {
        move_worker(&mut lucky, &mut found, &mut counter, &mut reports);
    }
    assert!(reports.is_empty());
}

#[test]
fn unexpected_events_change_nothing() {
    let mut worker = worker_for("", false);
    worker.step(Event::Raised);
    worker.step(Event::Added(1));
    worker.step(Event::Reported);
    worker.step(Event::Key(Candidate::draw()));
    assert_eq!(worker.action(), Action::ReadFlag);
    worker.step(Event::Flag(true));
    assert_eq!(worker.action(), Action::Finish);
    worker.step(Event::Flag(false));
    assert_eq!(worker.action(), Action::Finish);
}

#[test]
fn the_last_result_is_chosen() {
    assert!(choose_result(vec![]).is_none());
    assert!(choose_result(vec![None, None]).is_none());
    let results = vec![None, Some(result_with(1)), Some(result_with(2)), None];
    assert_eq!(choose_result(results).unwrap().attempts, 2);
    assert_eq!(choose_result(vec![Some(result_with(3)), None]).unwrap().attempts, 3);
}

#[test]
fn result_copies_are_equal() {
    let result = result_with(8);
    let copy = result.clone();
    assert_eq!(copy.public_key_base58, result.public_key_base58);
    assert_eq!(copy.secret_key_bytes, result.secret_key_bytes);
    assert_eq!(copy.full_keypair_bytes, result.full_keypair_bytes);
    assert_eq!(copy.attempts, 8);
}
