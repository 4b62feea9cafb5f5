//! What becomes of the key pairs that a worker draws: every hit is kept, announced, counted
//! and given, and nothing else is.

use crossbeam_channel::Sender;
use std::sync::atomic::{AtomicBool, AtomicU64, Ordering};
use vstd::prelude::*;

use crate::api::plan_sync;
use crate::base58::base58;
use crate::keys::{ed25519_public_key, Candidate};
use crate::models::{GenerateRequest, Rejection};
use crate::text::trimmed;
use crate::vanity::{key_matches_as_text, text_ends_in, VanityConfig, VanityResult};
use crate::worker::{
    choose_result, counted_up, handed_over, last_some, performed, Action, Batch, Event, Phase,
    Worker, WorkerModel,
};

verus! {

/// The Base58 text of the key pair's public key ends in what the worker searches for.
pub open spec fn is_wanted(candidate: Candidate, worker: WorkerModel) -> bool {
    text_ends_in(base58(candidate.public()), worker.suffix, worker.case_insensitive)
}

/// The worker has the key pair, and will give it.
pub open spec fn keeps(worker: WorkerModel, candidate: Candidate) -> bool {
    ||| worker.phase == Phase::Claiming(candidate)
    ||| worker.phase == Phase::Crediting(candidate)
    ||| worker.phase matches Phase::Found(c, _) && c == candidate
}

/// The worker has no key pair yet.
pub open spec fn keeps_none(worker: WorkerModel) -> bool {
    !(worker.phase is Claiming || worker.phase is Crediting || worker.phase is Found)
}

/// A worker that takes a key pair then has it if it is wanted, wherever in a batch it is, and
/// has none if it is not.
pub proof fn taken_key_is_kept_exactly_if_wanted(worker: WorkerModel, candidate: Candidate)
    requires
        worker.phase is Drawing,
    ensures
        ({
            let next = worker.after(Event::Key(candidate));
            &&& is_wanted(candidate, worker) ==> keeps(next, candidate)
            &&& !is_wanted(candidate, worker) ==> keeps_none(next)
            &&& next.local_attempts == worker.local_attempts + 1
            &&& next.suffix == worker.suffix
            &&& next.case_insensitive == worker.case_insensitive
        }),
{
    key_matches_as_text(candidate.public(), worker.suffix, worker.case_insensitive);
}

/// The same of every call of `Worker::step`.
pub proof fn step_keeps_a_key_exactly_if_wanted(
    before: Worker,
    after: Worker,
    candidate: Candidate,
)
    requires
        before@.phase is Drawing,
        exists|worker: &mut Worker|
            {
                &&& *worker == before
                &&& *final(worker) == after
                &&& #[trigger] call_ensures(Worker::step, (worker, Event::Key(candidate)), ())
            },
    ensures
        is_wanted(candidate, before@) ==> after@.phase == Phase::Claiming(candidate),
        !is_wanted(candidate, before@) ==> keeps_none(after@),
        after@.local_attempts == before@.local_attempts + 1,
        after@.suffix == before@.suffix,
        after@.case_insensitive == before@.case_insensitive,
{
    key_matches_as_text(candidate.public(), before@.suffix, before@.case_insensitive);
}

/// What a worker does with a key pair that is wanted: it raises the flag, adds all the
/// attempts that it has not counted, and is done with that key pair, at what the counter came
/// to.
pub proof fn wanted_key_is_announced_counted_and_given(
    worker: WorkerModel,
    candidate: Candidate,
    before: u64,
)
    requires
        worker.wf(),
        worker.phase is Drawing,
        is_wanted(candidate, worker),
    ensures
        ({
            let claiming = worker.after(Event::Key(candidate));
            let crediting = claiming.after(Event::Raised);
            let done = crediting.after(Event::Added(before));
            &&& claiming.action() == Action::RaiseFlag
            &&& crediting.action() matches Action::AddAttempts(n)
            &&& n == worker.local_attempts + 1
            &&& done.action() == Action::Finish
            &&& done.phase matches Phase::Found(found, attempts)
            &&& found == candidate
            &&& attempts == (before + worker.local_attempts + 1) % 0x1_0000_0000_0000_0000
        }),
{
    taken_key_is_kept_exactly_if_wanted(worker, candidate);
    key_matches_as_text(candidate.public(), worker.suffix, worker.case_insensitive);
}

/// What a worker does with a key pair that is not wanted: it looks at the flag again; but after
/// every 1024 of them it first adds 1024 attempts and reports them.
pub proof fn unwanted_key_is_counted_in_its_batch(
    worker: WorkerModel,
    candidate: Candidate,
    before: u64,
)
    requires
        worker.wf(),
        worker.phase is Drawing,
        !is_wanted(candidate, worker),
    ensures
        worker.local_attempts < 1024,
        ({
            let next = worker.after(Event::Key(candidate));
            let added = next.after(Event::Added(before));
            let reported = added.after(Event::Reported);
            if worker.local_attempts + 1 < 1024 {
                &&& next.action() == Action::ReadFlag
                &&& next.local_attempts == worker.local_attempts + 1
            } else {
                &&& next.action() == Action::AddAttempts(1024)
                &&& added.action() == Action::Report(1024)
                &&& reported.action() == Action::ReadFlag
                &&& reported.local_attempts == 0
            }
        }),
{
    key_matches_as_text(candidate.public(), worker.suffix, worker.case_insensitive);
}

/// Before it draws, a worker looks at the flag: if it is raised the worker is done, without a
/// key pair; else it draws.
pub proof fn flag_is_heeded(worker: WorkerModel)
    requires
        worker.phase is Checking,
    ensures
        worker.action() == Action::ReadFlag,
        worker.after(Event::Flag(false)).action() == Action::DrawKey,
        worker.after(Event::Flag(true)).action() == Action::Finish,
        keeps_none(worker.after(Event::Flag(true))),
        worker.after(Event::Flag(false)).local_attempts == worker.local_attempts,
{
}

/// The event is one that may come back from the action.
pub open spec fn may_answer(event: Event, action: Action) -> bool {
    match event {
        Event::Flag(_) => action == Action::ReadFlag,
        Event::Key(_) => action == Action::DrawKey,
        Event::Raised => action == Action::RaiseFlag,
        Event::Added(_) => action is AddAttempts,
        Event::Reported => action is Report,
    }
}

/// An event that the worker does not wait for changes nothing, and no event changes a worker
/// that is done.
pub proof fn unawaited_event_changes_nothing(worker: WorkerModel, event: Event)
    ensures
        !may_answer(event, worker.action()) ==> worker.after(event) == worker,
        worker.action() == Action::Finish ==> worker.after(event) == worker,
{
}

/// The same of every call of `Worker::step`.
pub proof fn unawaited_step_changes_nothing(before: Worker, after: Worker, event: Event)
    requires
        !may_answer(event, before@.action()),
        exists|worker: &mut Worker|
            {
                &&& *worker == before
                &&& *final(worker) == after
                &&& #[trigger] call_ensures(Worker::step, (worker, event), ())
            },
    ensures
        after@ == before@,
{
}

/// What a worker tells to be done next is what its state says.
pub proof fn action_goes_by_the_state(worker: &Worker, action: Action)
    requires
        call_ensures(Worker::action, (worker,), action),
    ensures
        match worker@.phase {
            Phase::Checking => action == Action::ReadFlag,
            Phase::Drawing => action == Action::DrawKey,
            Phase::Claiming(_) => action == Action::RaiseFlag,
            Phase::Crediting(_) => action matches Action::AddAttempts(n)
                && n == worker@.local_attempts,
            Phase::Flushing => action == Action::AddAttempts(1024),
            Phase::Reporting => action == Action::Report(1024),
            Phase::Cancelled => action == Action::Finish,
            Phase::Found(_, _) => action == Action::Finish,
        },
{
}

/// A key pair that a worker has, it never loses.
pub proof fn kept_key_stays_kept(worker: WorkerModel, candidate: Candidate, events: Seq<Event>)
    requires
        keeps(worker, candidate),
    ensures
        keeps(worker.after_all(events), candidate),
    decreases events.len(),
{
    if events.len() > 0 {
        kept_key_stays_kept(worker, candidate, events.drop_last());
    }
}

/// No hit is ever discarded: whatever happens, a wanted key pair that the worker took at some
/// time is the one that it has at the end.
pub proof fn no_hit_is_discarded(
    start: WorkerModel,
    events: Seq<Event>,
    k: int,
    candidate: Candidate,
)
    requires
        0 <= k < events.len(),
        start.after_all(events.take(k)).phase is Drawing,
        events[k] == Event::Key(candidate),
        is_wanted(candidate, start),
    ensures
        keeps(start.after_all(events), candidate),
    decreases events.len(),
{
    let init = events.drop_last();
    if k == events.len() - 1 {
        assert(events.take(k) == init);
        search_stays_the_same(start, init);
        taken_key_is_kept_exactly_if_wanted(start.after_all(init), candidate);
    } else {
        assert(events.take(k) == init.take(k));
        assert(init[k] == events[k]);
        no_hit_is_discarded(start, init, k, candidate);
    }
}

/// A worker has only a key pair that it took and that is wanted.
pub proof fn kept_key_was_drawn(start: WorkerModel, events: Seq<Event>, candidate: Candidate)
    requires
        keeps_none(start),
        keeps(start.after_all(events), candidate),
    ensures
        events.contains(Event::Key(candidate)),
        is_wanted(candidate, start),
    decreases events.len(),
{
    if events.len() > 0 {
        let init = events.drop_last();
        let before = start.after_all(init);
        search_stays_the_same(start, init);
        if keeps(before, candidate) {
            kept_key_was_drawn(start, init, candidate);
            let k = choose|k: int| 0 <= k < init.len() && init[k] == Event::Key(candidate);
            assert(events[k] == Event::Key(candidate));
        } else {
            assert(events.last() == events[events.len() - 1]);
            taken_key_is_kept_exactly_if_wanted(before, candidate);
        }
    }
}

/// A worker keeps searching for what it started with.
pub proof fn search_stays_the_same(start: WorkerModel, events: Seq<Event>)
    ensures
        start.after_all(events).suffix == start.suffix,
        start.after_all(events).case_insensitive == start.case_insensitive,
    decreases events.len(),
{
    if events.len() > 0 {
        search_stays_the_same(start, events.drop_last());
    }
}

/// How many of the events are key pairs.
pub open spec fn key_count(events: Seq<Event>) -> nat
    decreases events.len(),
{
    if events.len() == 0 {
        0
    } else {
        key_count(events.drop_last()) + if events.last() is Key {
            1nat
        } else {
            0nat
        }
    }
}

proof fn driven_worker_takes_every_key(
    start: WorkerModel,
    events: Seq<Event>,
    found: AtomicBool,
    attempts_counter: AtomicU64,
    progress_tx: Option<Sender<u64>>,
)
    requires
        start.driven_by(events, found, attempts_counter, progress_tx),
    ensures
        key_count(events) == start.keys_taken(events),
        forall|k: int|
            0 <= k < events.len() && #[trigger] events[k] is Key ==> start.after_all(
                events.take(k),
            ).phase is Drawing,
        forall|k: int|
            0 <= k < events.len() ==> performed(
                start.after_all(events.take(k)).action(),
                #[trigger] events[k],
                found,
                attempts_counter,
                progress_tx,
            ),
    decreases events.len(),
{
    if events.len() > 0 {
        let init = events.drop_last();
        driven_worker_takes_every_key(start, init, found, attempts_counter, progress_tx);
        assert forall|k: int| 0 <= k < events.len() implies performed(
            start.after_all(events.take(k)).action(),
            #[trigger] events[k],
            found,
            attempts_counter,
            progress_tx,
        ) && (events[k] is Key ==> start.after_all(events.take(k)).phase is Drawing) by {
            if k < init.len() {
                assert(init[k] == events[k]);
                assert(init.take(k) == events.take(k));
            } else {
                assert(events.take(k) == init);
            }
        }
    }
}

/// What a batch does, of a worker that has no key pair yet and looks at the flag.
///
/// It ends with a key pair only after the flag was set, with every attempt of the batch added
/// to the counter, and the attempts that are given are what the counter came to. It ends
/// without one only after the flag was seen raised. Otherwise exactly 1024 attempts are in the
/// batch, and they are added to the counter and reported. Every key pair is drawn afresh, and
/// none that is wanted is passed over: as soon as one is drawn, the batch ends with it.
pub proof fn batch_gives_the_first_hit(
    before: Worker,
    after: Worker,
    found: &AtomicBool,
    attempts_counter: &AtomicU64,
    progress_tx: &Option<Sender<u64>>,
    res: Batch,
)
    requires
        before@.phase is Checking,
        exists|worker: &mut Worker|
            {
                &&& *worker == before
                &&& *final(worker) == after
                &&& #[trigger] call_ensures(
                    Worker::run_batch,
                    (worker, found, attempts_counter, progress_tx),
                    res,
                )
            },
    ensures
        after@.suffix == before@.suffix,
        after@.case_insensitive == before@.case_insensitive,
        res matches Batch::Ended(Some(result)) ==> {
            &&& call_ensures(AtomicBool::store, (found, true, Ordering::SeqCst), ())
            &&& 1 <= after@.local_attempts <= 1024
            &&& counted_up(*attempts_counter, after@.local_attempts, result.attempts)
            &&& is_key_pair_ending_in(result, before@.suffix, before@.case_insensitive)
        },
        res matches Batch::Ended(None) ==> call_ensures(
            AtomicBool::load,
            (found, Ordering::Relaxed),
            true,
        ),
        res is Exhausted ==> {
            &&& after@.phase is Checking
            &&& after@.local_attempts == 0
            &&& exists|total: u64| #[trigger] counted_up(*attempts_counter, 1024, total)
            &&& progress_tx matches Some(sender) ==> handed_over(*sender, 1024)
        },
        exists|events: Seq<Event>|
            {
                &&& #[trigger] is_course_of(
                    before@,
                    events,
                    *found,
                    *attempts_counter,
                    *progress_tx,
                    res,
                )
                &&& res is Exhausted ==> before@.local_attempts + key_count(events) == 1024
                &&& res matches Batch::Ended(Some(_)) ==> before@.local_attempts + key_count(
                    events,
                ) == after@.local_attempts
            },
{
    let events = choose|events: Seq<Event>|
        {
            &&& after@ == #[trigger] before@.after_all(events)
            &&& before@.driven_by(events, *found, *attempts_counter, *progress_tx)
            &&& match res {
                Batch::Exhausted => before@.keys_taken(events) == 1024 - before@.local_attempts,
                Batch::Ended(None) => true,
                Batch::Ended(Some(_)) => before@.keys_taken(events) == after@.local_attempts
                    - before@.local_attempts,
            }
        };
    driven_worker_takes_every_key(before@, events, *found, *attempts_counter, *progress_tx);
    assert forall|k: int| 0 <= k < events.len() implies (
    #[trigger] events[k] matches Event::Key(c) ==> is_wanted(c, before@) ==> keeps(after@, c)) by {
        if let Event::Key(c) = events[k] {
            if is_wanted(c, before@) {
                no_hit_is_discarded(before@, events, k, c);
            }
        }
    }
    if let Batch::Ended(Some(result)) = res {
        key_matches_as_text(
            ed25519_public_key(result.secret_key_bytes@),
            before@.suffix,
            before@.case_insensitive,
        );
        if let Phase::Found(c, _) = after@.phase {
            kept_key_was_drawn(before@, events, c);
        }
    }
    assert(is_course_of(before@, events, *found, *attempts_counter, *progress_tx, res));
}

/// The result is a key pair whose text ends in `suffix`: the text is that of the public key
/// which belongs to the secret key, and the 64 bytes are the secret key and the public key.
pub open spec fn is_key_pair_ending_in(
    result: VanityResult,
    suffix: Seq<char>,
    case_insensitive: bool,
) -> bool {
    let public = ed25519_public_key(result.secret_key_bytes@);
    &&& result.public_key_base58@ == base58(public)
    &&& result.full_keypair_bytes@ == result.secret_key_bytes@ + public
    &&& result.full_keypair_bytes@.len() == 64
    &&& text_ends_in(result.public_key_base58@, suffix, case_insensitive)
}

/// The events are what came back in the course of a batch: each from performing what the
/// worker waited for. A wanted key pair among them is the one that the batch ends with, and
/// the one that it ends with is among them.
pub open spec fn is_course_of(
    start: WorkerModel,
    events: Seq<Event>,
    found: AtomicBool,
    attempts_counter: AtomicU64,
    progress_tx: Option<Sender<u64>>,
    res: Batch,
) -> bool {
    &&& forall|k: int|
        0 <= k < events.len() ==> performed(
            start.after_all(events.take(k)).action(),
            #[trigger] events[k],
            found,
            attempts_counter,
            progress_tx,
        )
    &&& forall|k: int|
        0 <= k < events.len() ==> (#[trigger] events[k] matches Event::Key(c) ==> is_wanted(c, start)
            ==> (res matches Batch::Ended(Some(result)) && result.secret_key_bytes@ == c.secret()))
    &&& res matches Batch::Ended(Some(result)) ==> exists|c: Candidate|
        {
            &&& #[trigger] events.contains(Event::Key(c))
            &&& is_wanted(c, start)
            &&& result.secret_key_bytes@ == c.secret()
        }
}

/// A worker gives the key pair that it found, with the attempts at which it was found, and
/// nothing before it has found one.
pub proof fn worker_gives_what_it_found(worker: &Worker, res: Option<VanityResult>)
    requires
        call_ensures(Worker::result, (worker,), res),
    ensures
        res is Some <==> worker@.phase is Found,
        worker@.phase matches Phase::Found(candidate, attempts) ==> (res matches Some(result) ==> {
            &&& result.secret_key_bytes@ == candidate.secret()
            &&& result.attempts == attempts
            &&& is_key_pair_ending_in(result, worker@.suffix, worker@.case_insensitive)
        }),
{
    if let Some(result) = res {
        key_matches_as_text(
            ed25519_public_key(result.secret_key_bytes@),
            worker@.suffix,
            worker@.case_insensitive,
        );
    }
}

/// A key pair is handed out as the Base58 text of its public key, its secret key, and the 64
/// bytes of both, with the attempts that are given.
pub proof fn key_pair_is_handed_out_whole(
    candidate: &Candidate,
    attempts: u64,
    res: VanityResult,
    secret: &[u8; 32],
    public: &[u8; 32],
)
    requires
        call_ensures(Candidate::to_result, (candidate, attempts), res),
        call_ensures(Candidate::secret_key, (candidate,), secret),
        call_ensures(Candidate::public_key, (candidate,), public),
    ensures
        public@ == ed25519_public_key(secret@),
        res.public_key_base58@ == base58(public@),
        res.secret_key_bytes@ == secret@,
        res.full_keypair_bytes@ == secret@ + public@,
        res.full_keypair_bytes@.len() == 64,
        res.attempts == attempts,
{
}

/// A key pair that is drawn comes from the generator, and its keys belong together.
pub proof fn drawn_key_pair_belongs_together(candidate: Candidate)
    requires
        call_ensures(Candidate::draw, (), candidate),
    ensures
        candidate.is_generated(),
        candidate.public() == ed25519_public_key(candidate.secret()),
{
}

/// Among the results of the workers the last key pair is chosen, if there is one.
pub proof fn last_key_pair_is_chosen(
    results: Vec<Option<VanityResult>>,
    res: Option<VanityResult>,
)
    requires
        call_ensures(choose_result, (results,), res),
    ensures
        res is None ==> forall|i: int| 0 <= i < results@.len() ==> #[trigger] results@[i] is None,
        res is Some ==> exists|i: int|
            {
                &&& 0 <= i < results@.len()
                &&& #[trigger] results@[i] == res
                &&& forall|k: int| i < k < results@.len() ==> #[trigger] results@[k] is None
            },
{
    last_some_is_last(results@);
}

proof fn last_some_is_last(results: Seq<Option<VanityResult>>)
    ensures
        ({
            let res = last_some(results);
            &&& res is None ==> forall|i: int|
                0 <= i < results.len() ==> #[trigger] results[i] is None
            &&& res is Some ==> exists|i: int|
                {
                    &&& 0 <= i < results.len()
                    &&& #[trigger] results[i] == res
                    &&& forall|k: int| i < k < results.len() ==> #[trigger] results[k] is None
                }
        }),
    decreases results.len(),
{
    if results.len() > 0 {
        let init = results.drop_last();
        let res = last_some(results);
        assert(results.last() == results[results.len() - 1]);
        if results.last() is None {
            last_some_is_last(init);
            assert forall|k: int| 0 <= k < init.len() implies results[k] == #[trigger] init[k] by {
            }
            if res is None {
                assert forall|i: int| 0 <= i < results.len() implies #[trigger] results[i]
                    is None by {
                    if i < init.len() {
                        assert(init[i] is None);
                    }
                }
            } else {
                let i = choose|i: int|
                    {
                        &&& 0 <= i < init.len()
                        &&& #[trigger] init[i] == res
                        &&& forall|k: int| i < k < init.len() ==> #[trigger] init[k] is None
                    };
                assert(results[i] == res);
                assert forall|k: int| i < k < results.len() implies #[trigger] results[k]
                    is None by {
                    if k < init.len() {
                        assert(init[k] is None);
                    }
                }
            }
        }
    }
}

/// A worker starts with nothing done, on the search that it is given.
pub proof fn worker_starts_on_its_search(config: &VanityConfig, worker: Worker)
    requires
        call_ensures(Worker::new, (config,), worker),
    ensures
        worker@.suffix == config.suffix@,
        worker@.case_insensitive == config.case_insensitive,
        worker@.local_attempts == 0,
        worker@.phase is Checking,
{
}

/// Who waits for a key pair gets one whose text ends in the trimmed suffix of the request,
/// with the letter case of the request, whichever batch of whichever worker finds it.
pub proof fn found_key_is_the_one_asked_for(
    request: &GenerateRequest,
    limit: usize,
    processors: usize,
    config: VanityConfig,
    start: Worker,
    before: Worker,
    after: Worker,
    found: &AtomicBool,
    attempts_counter: &AtomicU64,
    progress_tx: &Option<Sender<u64>>,
    result: VanityResult,
)
    requires
        call_ensures(
            plan_sync,
            (request, limit, processors),
            Ok::<VanityConfig, Rejection>(config),
        ),
        call_ensures(Worker::new, (&config,), start),
        before@.suffix == start@.suffix,
        before@.case_insensitive == start@.case_insensitive,
        before@.phase is Checking,
        exists|worker: &mut Worker|
            {
                &&& *worker == before
                &&& *final(worker) == after
                &&& #[trigger] call_ensures(
                    Worker::run_batch,
                    (worker, found, attempts_counter, progress_tx),
                    Batch::Ended(Some(result)),
                )
            },
    ensures
        is_key_pair_ending_in(result, trimmed(request.suffix@), request.case_insensitive),
{
    batch_gives_the_first_hit(
        before,
        after,
        found,
        attempts_counter,
        progress_tx,
        Batch::Ended(Some(result)),
    );
}

} // verus!
