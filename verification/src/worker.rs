//! One search thread: what it does next, and what it makes of what comes back.
//!
//! Threads share a flag that says that a hit was found, and a counter of attempts. Before
//! each key a worker reads the flag. It adds its attempts to the counter when a batch is
//! full or when it has a hit; with a hit it raises the flag first.

use crossbeam_channel::Sender;
use std::sync::atomic::{AtomicBool, AtomicU64, Ordering};
use vstd::prelude::*;

use crate::keys::Candidate;
use crate::vanity::{key_matches, matches_suffix, VanityConfig, VanityResult};

verus! {

/// After how many attempts without a hit a worker adds to the shared counter.
pub const BATCH_SIZE: u64 = 1024;

/// The sending half of a channel of `crossbeam_channel`.
#[verifier::external_type_specification]
#[verifier::external_body]
#[verifier::reject_recursive_types(T)]
pub struct ExSender<T>(crossbeam_channel::Sender<T>);

/// Calls `Sender::try_send` and ignores whether the message was taken. Nothing is claimed:
/// that depends on the other end of the channel.
#[verifier::external_body]
fn sender_try_send(sender: &Sender<u64>, message: u64) {
    let _ = sender.try_send(message);
}

/// What a worker is waiting for.
#[derive(Clone, Copy)]
pub enum Phase {
    /// For the state of the shared flag.
    Checking,
    /// For a fresh key pair.
    Drawing,
    /// For the flag to be raised, because this key pair is a hit.
    Claiming(Candidate),
    /// For the attempts up to this hit to be counted.
    Crediting(Candidate),
    /// For the attempts of a full batch to be counted.
    Flushing,
    /// For the progress of a full batch to be reported.
    Reporting,
    /// Nothing: another worker has a hit.
    Cancelled,
    /// Nothing: this key pair was found, after this many attempts of all workers.
    Found(Candidate, u64),
}

/// What is to be done next.
#[derive(Clone, Copy, PartialEq, Eq, Structural, Debug)]
pub enum Action {
    ReadFlag,
    DrawKey,
    RaiseFlag,
    AddAttempts(u64),
    Report(u64),
    Finish,
}

/// What came back from an action.
#[derive(Clone, Copy)]
pub enum Event {
    /// The flag was read.
    Flag(bool),
    /// A key pair was drawn.
    Key(Candidate),
    /// The flag was raised.
    Raised,
    /// Attempts were added to a counter that held this number before.
    Added(u64),
    /// Progress was reported.
    Reported,
}

/// The state of a worker.
pub struct WorkerModel {
    pub suffix: Seq<char>,
    pub case_insensitive: bool,
    pub local_attempts: nat,
    pub phase: Phase,
}

/// The sum of two counts, modulo two to the power 64.
pub open spec fn wrapped_sum(a: nat, b: nat) -> u64 {
    ((a + b) % 0x1_0000_0000_0000_0000) as u64
}

impl WorkerModel {
    /// The action that the worker waits for.
    pub open spec fn action(self) -> Action {
        match self.phase {
            Phase::Checking => Action::ReadFlag,
            Phase::Drawing => Action::DrawKey,
            Phase::Claiming(_) => Action::RaiseFlag,
            Phase::Crediting(_) => Action::AddAttempts(self.local_attempts as u64),
            Phase::Flushing => Action::AddAttempts(BATCH_SIZE),
            Phase::Reporting => Action::Report(BATCH_SIZE),
            Phase::Cancelled => Action::Finish,
            Phase::Found(_, _) => Action::Finish,
        }
    }

    /// The key pair that the worker holds.
    pub open spec fn held(self) -> Option<Candidate> {
        match self.phase {
            Phase::Claiming(c) => Some(c),
            Phase::Crediting(c) => Some(c),
            Phase::Found(c, _) => Some(c),
            _ => None,
        }
    }

    /// `c` is what the worker searches for.
    pub open spec fn is_hit(self, c: Candidate) -> bool {
        key_matches(c.public(), self.suffix, self.case_insensitive)
    }

    /// A batch is never overfull, and a key pair is only held if it is a hit.
    pub open spec fn wf(self) -> bool {
        &&& match self.phase {
            Phase::Checking | Phase::Drawing => self.local_attempts < BATCH_SIZE,
            Phase::Flushing => self.local_attempts == BATCH_SIZE,
            Phase::Reporting => self.local_attempts == 0,
            Phase::Cancelled => self.local_attempts < BATCH_SIZE,
            _ => 1 <= self.local_attempts <= BATCH_SIZE,
        }
        &&& self.held() matches Some(c) ==> self.is_hit(c)
    }

    /// The state in the given phase.
    pub open spec fn at(self, phase: Phase) -> WorkerModel {
        WorkerModel { phase, ..self }
    }

    /// The state after an event. An event that the worker does not wait for changes nothing.
    pub open spec fn after(self, event: Event) -> WorkerModel {
        match (self.phase, event) {
            (Phase::Checking, Event::Flag(raised)) => self.at(
                if raised {
                    Phase::Cancelled
                } else {
                    Phase::Drawing
                },
            ),
            (Phase::Drawing, Event::Key(c)) => WorkerModel {
                local_attempts: self.local_attempts + 1,
                phase: if self.is_hit(c) {
                    Phase::Claiming(c)
                } else if self.local_attempts + 1 == BATCH_SIZE {
                    Phase::Flushing
                } else {
                    Phase::Checking
                },
                ..self
            },
            (Phase::Claiming(c), Event::Raised) => self.at(Phase::Crediting(c)),
            (Phase::Crediting(c), Event::Added(before)) => self.at(
                Phase::Found(c, wrapped_sum(before as nat, self.local_attempts)),
            ),
            (Phase::Flushing, Event::Added(_)) => WorkerModel {
                local_attempts: 0,
                phase: Phase::Reporting,
                ..self
            },
            (Phase::Reporting, Event::Reported) => self.at(Phase::Checking),
            _ => self,
        }
    }

    /// The state after several events.
    pub open spec fn after_all(self, events: Seq<Event>) -> WorkerModel
        decreases events.len(),
    {
        if events.len() == 0 {
            self
        } else {
            self.after_all(events.drop_last()).after(events.last())
        }
    }

    /// Whether the event is a key pair that the worker takes.
    pub open spec fn takes_key(self, event: Event) -> bool {
        self.phase is Drawing && event is Key
    }

    /// How many attempts the event adds to the shared counter.
    pub open spec fn credit(self, event: Event) -> nat {
        match (self.action(), event) {
            (Action::AddAttempts(n), Event::Added(_)) => n as nat,
            _ => 0,
        }
    }

    /// How many key pairs the worker takes in the course of the events.
    pub open spec fn keys_taken(self, events: Seq<Event>) -> nat
        decreases events.len(),
    {
        if events.len() == 0 {
            0
        } else {
            let before = self.after_all(events.drop_last());
            self.keys_taken(events.drop_last()) + if before.takes_key(events.last()) {
                1nat
            } else {
                0nat
            }
        }
    }

    /// How many attempts the worker adds to the shared counter in the course of the events.
    pub open spec fn credited(self, events: Seq<Event>) -> nat
        decreases events.len(),
    {
        if events.len() == 0 {
            0
        } else {
            self.credited(events.drop_last()) + self.after_all(events.drop_last()).credit(
                events.last(),
            )
        }
    }

    /// How many full batches without a hit the worker counts in the course of the events.
    pub open spec fn full_batches(self, events: Seq<Event>) -> nat
        decreases events.len(),
    {
        if events.len() == 0 {
            0
        } else {
            let before = self.after_all(events.drop_last());
            self.full_batches(events.drop_last()) + if before.phase is Flushing
                && events.last() is Added {
                1nat
            } else {
                0nat
            }
        }
    }

    /// What the worker reports in the course of the events.
    pub open spec fn reports(self, events: Seq<Event>) -> Seq<u64>
        decreases events.len(),
    {
        if events.len() == 0 {
            Seq::empty()
        } else {
            let earlier = self.reports(events.drop_last());
            match (self.after_all(events.drop_last()).action(), events.last()) {
                (Action::Report(n), Event::Reported) => earlier.push(n),
                _ => earlier,
            }
        }
    }

    /// How many attempts the shared counter does not hold yet.
    pub open spec fn uncredited(self) -> nat {
        match self.phase {
            Phase::Found(_, _) => 0,
            _ => self.local_attempts,
        }
    }

    /// An upper bound on the steps until a batch ends.
    pub open spec fn steps_left(self) -> nat {
        match self.phase {
            Phase::Checking => 3 * (BATCH_SIZE - self.local_attempts) as nat + 6,
            Phase::Drawing => 3 * (BATCH_SIZE - self.local_attempts) as nat + 5,
            Phase::Claiming(_) => 5,
            Phase::Crediting(_) => 4,
            Phase::Flushing => 5,
            Phase::Reporting => 4,
            Phase::Cancelled => 0,
            Phase::Found(_, _) => 0,
        }
    }
}

/// The message was handed to the channel. A contract that says so can be met only by handing
/// it over; whether the other end takes it is left open.
pub closed spec fn handed_over(sender: Sender<u64>, message: u64) -> bool {
    call_ensures(sender_try_send, (&sender, message), ())
}

/// `amount` was added to the counter, and `total` is what it came to. A contract that says so
/// can be met only by adding.
pub open spec fn counted_up(counter: AtomicU64, amount: nat, total: u64) -> bool {
    exists|n: u64, before: u64|
        {
            &&& n == amount
            &&& #[trigger] call_ensures(
                AtomicU64::fetch_add,
                (&counter, n, Ordering::Relaxed),
                before,
            )
            &&& total == (before + n) % 0x1_0000_0000_0000_0000
        }
}

/// The event is what came back from performing the action on the flag, the counter and the
/// channel. A contract that says so can be met only by performing it.
pub open spec fn performed(
    action: Action,
    event: Event,
    found: AtomicBool,
    attempts_counter: AtomicU64,
    progress_tx: Option<Sender<u64>>,
) -> bool {
    match (action, event) {
        (Action::ReadFlag, Event::Flag(raised)) => call_ensures(
            AtomicBool::load,
            (&found, Ordering::Relaxed),
            raised,
        ),
        (Action::DrawKey, Event::Key(candidate)) => call_ensures(Candidate::draw, (), candidate),
        (Action::RaiseFlag, Event::Raised) => call_ensures(
            AtomicBool::store,
            (&found, true, Ordering::SeqCst),
            (),
        ),
        (Action::AddAttempts(n), Event::Added(before)) => call_ensures(
            AtomicU64::fetch_add,
            (&attempts_counter, n, Ordering::Relaxed),
            before,
        ),
        (Action::Report(n), Event::Reported) => progress_tx matches Some(sender)
            ==> handed_over(sender, n),
        _ => false,
    }
}

proof fn adding_counts_up(
    n: u64,
    before: u64,
    found: AtomicBool,
    attempts_counter: AtomicU64,
    progress_tx: Option<Sender<u64>>,
)
    requires
        performed(
            Action::AddAttempts(n),
            Event::Added(before),
            found,
            attempts_counter,
            progress_tx,
        ),
    ensures
        counted_up(attempts_counter, n as nat, wrapped_sum(before as nat, n as nat)),
{
    assert((before + n) % 0x1_0000_0000_0000_0000 <= u64::MAX);
}

impl WorkerModel {
    /// Every event is what came back from performing the action that the worker waited for.
    pub open spec fn driven_by(
        self,
        events: Seq<Event>,
        found: AtomicBool,
        attempts_counter: AtomicU64,
        progress_tx: Option<Sender<u64>>,
    ) -> bool
        decreases events.len(),
    {
        events.len() > 0 ==> {
            let earlier = events.drop_last();
            &&& self.driven_by(earlier, found, attempts_counter, progress_tx)
            &&& performed(
                self.after_all(earlier).action(),
                events.last(),
                found,
                attempts_counter,
                progress_tx,
            )
        }
    }
}

/// A search thread.
pub struct Worker {
    suffix: String,
    case_insensitive: bool,
    position: Position,
}

/// Where a worker stands: the attempts that it has not counted yet, and what it waits for.
#[derive(Clone, Copy)]
struct Position {
    local_attempts: u64,
    phase: Phase,
}

/// How a call of `run_batch` ended.
pub enum Batch {
    /// A full batch without a hit; the search goes on.
    Exhausted,
    /// The worker is done, with a key pair or, if another worker has one, without.
    Ended(Option<VanityResult>),
}

impl View for Worker {
    type V = WorkerModel;

    closed spec fn view(&self) -> WorkerModel {
        WorkerModel {
            suffix: self.suffix@,
            case_insensitive: self.case_insensitive,
            local_attempts: self.position.local_attempts as nat,
            phase: self.position.phase,
        }
    }
}

impl Worker {
    #[verifier::type_invariant]
    spec fn is_well_formed(self) -> bool {
        self@.wf()
    }

    /// A worker that has done nothing yet.
    pub fn new(config: &VanityConfig) -> (res: Worker)
        ensures
            res@.suffix == config.suffix@,
            res@.case_insensitive == config.case_insensitive,
            res@.local_attempts == 0,
            res@.phase == Phase::Checking,
            res@.wf(),
    {
        Worker {
            suffix: config.suffix.clone(),
            case_insensitive: config.case_insensitive,
            position: Position { local_attempts: 0, phase: Phase::Checking },
        }
    }

    /// What the worker waits for.
    pub fn action(&self) -> (res: Action)
        ensures
            res == self@.action(),
            self@.wf(),
    {
        proof {
            use_type_invariant(self);
        }
        match self.position.phase {
            Phase::Checking => Action::ReadFlag,
            Phase::Drawing => Action::DrawKey,
            Phase::Claiming(_) => Action::RaiseFlag,
            Phase::Crediting(_) => Action::AddAttempts(self.position.local_attempts),
            Phase::Flushing => Action::AddAttempts(BATCH_SIZE),
            Phase::Reporting => Action::Report(BATCH_SIZE),
            Phase::Cancelled => Action::Finish,
            Phase::Found(_, _) => Action::Finish,
        }
    }

    /// Takes note of what came back.
    pub fn step(&mut self, event: Event)
        ensures
            final(self)@ == old(self)@.after(event),
            final(self)@.wf(),
    {
        proof {
            use_type_invariant(&*self);
        }
        let at = self.position;
        let next = match (at.phase, event) {
            (Phase::Checking, Event::Flag(raised)) => Position {
                phase: if raised {
                    Phase::Cancelled
                } else {
                    Phase::Drawing
                },
                ..at
            },
            (Phase::Drawing, Event::Key(candidate)) => {
                let hit = matches_suffix(
                    candidate.public_key(),
                    self.suffix.as_str(),
                    self.case_insensitive,
                );
                Position {
                    local_attempts: at.local_attempts + 1,
                    phase: if hit {
                        Phase::Claiming(candidate)
                    } else if at.local_attempts + 1 == BATCH_SIZE {
                        Phase::Flushing
                    } else {
                        Phase::Checking
                    },
                }
            },
            (Phase::Claiming(candidate), Event::Raised) => Position {
                phase: Phase::Crediting(candidate),
                ..at
            },
            (Phase::Crediting(candidate), Event::Added(before)) => Position {
                phase: Phase::Found(candidate, before.wrapping_add(at.local_attempts)),
                ..at
            },
            (Phase::Flushing, Event::Added(_)) => Position {
                local_attempts: 0,
                phase: Phase::Reporting,
            },
            (Phase::Reporting, Event::Reported) => Position { phase: Phase::Checking, ..at },
            _ => at,
        };
        self.position = next;
    }

    /// The key pair that the worker found.
    pub fn result(&self) -> (res: Option<VanityResult>)
        ensures
            match self@.phase {
                Phase::Found(candidate, attempts) => {
                    &&& res matches Some(r)
                    &&& r.secret_key_bytes@ == candidate.secret()
                    &&& r.attempts == attempts
                    &&& r.is_hit_for(self@.suffix, self@.case_insensitive)
                },
                _ => res is None,
            },
    {
        proof {
            use_type_invariant(self);
        }
        match self.position.phase {
            Phase::Found(candidate, attempts) => Some(candidate.to_result(attempts)),
            _ => None,
        }
    }

    /// Performs one action and returns what came back: reads or raises `found`, draws a key
    /// pair, adds to `attempts_counter`, or sends to `progress_tx`.
    ///
    /// The contents of an atomic and the far end of a channel have no value that a contract
    /// could speak of. The contract says instead that the call was made, with which arguments,
    /// and that the event is what it returned.
    fn perform(
        &self,
        found: &AtomicBool,
        attempts_counter: &AtomicU64,
        progress_tx: &Option<Sender<u64>>,
    ) -> (res: Event)
        requires
            self@.action() != Action::Finish,
        ensures
            match self@.action() {
                Action::ReadFlag => res is Flag,
                Action::DrawKey => res is Key,
                Action::RaiseFlag => res is Raised,
                Action::AddAttempts(_) => res is Added,
                _ => res is Reported,
            },
            performed(self@.action(), res, *found, *attempts_counter, *progress_tx),
    {
        match self.action() {
            Action::ReadFlag => Event::Flag(found.load(Ordering::Relaxed)),
            Action::DrawKey => Event::Key(Candidate::draw()),
            Action::RaiseFlag => {
                found.store(true, Ordering::SeqCst);
                Event::Raised
            },
            Action::AddAttempts(n) => Event::Added(attempts_counter.fetch_add(n, Ordering::Relaxed)),
            Action::Report(n) => {
                if let Some(sender) = progress_tx {
                    sender_try_send(sender, n);
                }
                Event::Reported
            },
            Action::Finish => Event::Reported,
        }
    }

    /// Searches until a batch is full or the worker is done.
    pub fn run_batch(
        &mut self,
        found: &AtomicBool,
        attempts_counter: &AtomicU64,
        progress_tx: &Option<Sender<u64>>,
    ) -> (res: Batch)
        ensures
            final(self)@.wf(),
            exists|events: Seq<Event>|
                {
                    &&& final(self)@ == #[trigger] old(self)@.after_all(events)
                    &&& old(self)@.driven_by(events, *found, *attempts_counter, *progress_tx)
                    &&& old(self)@.phase is Checking ==> match res {
                        Batch::Exhausted => {
                            &&& old(self)@.keys_taken(events) == BATCH_SIZE
                                - old(self)@.local_attempts
                            &&& old(self)@.credited(events) == BATCH_SIZE
                        },
                        Batch::Ended(None) => old(self)@.credited(events) == 0,
                        Batch::Ended(Some(_)) => {
                            &&& old(self)@.keys_taken(events) == final(self)@.local_attempts
                                - old(self)@.local_attempts
                            &&& old(self)@.credited(events) == final(self)@.local_attempts
                        },
                    }
                },
            match res {
                Batch::Exhausted => final(self)@.phase == Phase::Checking
                    && final(self)@.local_attempts == 0,
                Batch::Ended(None) => final(self)@.phase is Cancelled,
                Batch::Ended(Some(r)) => {
                    &&& final(self)@.phase matches Phase::Found(candidate, attempts)
                    &&& r.secret_key_bytes@ == candidate.secret()
                    &&& r.attempts == attempts
                    &&& r.is_hit_for(old(self)@.suffix, old(self)@.case_insensitive)
                },
            },
            final(self)@.suffix == old(self)@.suffix,
            final(self)@.case_insensitive == old(self)@.case_insensitive,
            res matches Batch::Ended(Some(_)) && !(old(self)@.phase is Crediting
                || old(self)@.phase is Found) ==> call_ensures(
                AtomicBool::store,
                (found, true, Ordering::SeqCst),
                (),
            ),
            res matches Batch::Ended(Some(r)) ==> !(old(self)@.phase is Found) ==> counted_up(
                *attempts_counter,
                final(self)@.local_attempts,
                r.attempts,
            ),
            res matches Batch::Ended(None) && !(old(self)@.phase is Cancelled) ==> call_ensures(
                AtomicBool::load,
                (found, Ordering::Relaxed),
                true,
            ),
            res is Exhausted && old(self)@.phase is Checking ==> exists|total: u64| #[trigger]
                counted_up(*attempts_counter, 1024, total),
            res is Exhausted ==> (progress_tx matches Some(sender) ==> handed_over(
                *sender,
                1024,
            )),
    {
        proof {
            use_type_invariant(&*self);
        }
        let ghost mut events: Seq<Event> = Seq::empty();
        loop
            invariant
                self@.wf(),
                self@ == old(self)@.after_all(events),
                old(self)@.driven_by(events, *found, *attempts_counter, *progress_tx),
                self@.suffix == old(self)@.suffix,
                self@.case_insensitive == old(self)@.case_insensitive,
                old(self)@.phase is Checking ==> match self@.phase {
                    Phase::Reporting => {
                        &&& old(self)@.keys_taken(events) == BATCH_SIZE
                            - old(self)@.local_attempts
                        &&& old(self)@.credited(events) == BATCH_SIZE
                    },
                    Phase::Found(_, _) => {
                        &&& old(self)@.keys_taken(events) == self@.local_attempts
                            - old(self)@.local_attempts
                        &&& old(self)@.credited(events) == self@.local_attempts
                    },
                    _ => {
                        &&& old(self)@.keys_taken(events) == self@.local_attempts
                            - old(self)@.local_attempts
                        &&& old(self)@.credited(events) == 0
                    },
                },
                (self@.phase is Crediting || self@.phase is Found) && !(old(self)@.phase
                    is Crediting || old(self)@.phase is Found) ==> call_ensures(
                    AtomicBool::store,
                    (found, true, Ordering::SeqCst),
                    (),
                ),
                self@.phase matches Phase::Found(_, attempts) ==> !(old(self)@.phase is Found)
                    ==> counted_up(*attempts_counter, self@.local_attempts, attempts),
                self@.phase is Cancelled && !(old(self)@.phase is Cancelled) ==> call_ensures(
                    AtomicBool::load,
                    (found, Ordering::Relaxed),
                    true,
                ),
                self@.phase is Reporting && old(self)@.phase is Checking ==> exists|total: u64|
                    #[trigger] counted_up(*attempts_counter, 1024, total),
            decreases self@.steps_left(),
        {
            let action = self.action();
            if let Action::Finish = action {
                return Batch::Ended(self.result());
            }
            let event = self.perform(found, attempts_counter, progress_tx);
            proof {
                assert(events.push(event).drop_last() == events);
                events = events.push(event);
            }
            proof {
                if let (Action::AddAttempts(n), Event::Added(before)) = (action, event) {
                    adding_counts_up(n, before, *found, *attempts_counter, *progress_tx);
                }
            }
            self.step(event);
            if let Action::Report(_) = action {
                return Batch::Exhausted;
            }
        }
    }
}

/// The last key pair among the results of the workers.
pub open spec fn last_some(results: Seq<Option<VanityResult>>) -> Option<VanityResult>
    decreases results.len(),
{
    if results.len() == 0 {
        None
    } else if results.last() is Some {
        results.last()
    } else {
        last_some(results.drop_last())
    }
}

/// Chooses, among the results of the workers in the order in which they are collected,
/// the last that is a key pair.
pub fn choose_result(results: Vec<Option<VanityResult>>) -> (res: Option<VanityResult>)
    ensures
        res == last_some(results@),
{
    let mut rest = results;
    while rest.len() > 0
        invariant
            last_some(rest@) == last_some(results@),
        decreases rest.len(),
    {
        if let Some(Some(result)) = rest.pop() {
            return Some(result);
        }
    }
    None
}

/// A search gives a key pair exactly if some worker has one.
pub proof fn search_succeeds_with_any_worker(results: Seq<Option<VanityResult>>)
    ensures
        last_some(results) is Some <==> exists|i: int|
            0 <= i < results.len() && #[trigger] results[i] is Some,
        last_some(results) matches Some(r) ==> results.contains(Some(r)),
    decreases results.len(),
{
    if results.len() > 0 {
        let init = results.drop_last();
        search_succeeds_with_any_worker(init);
        assert(results.last() == results[results.len() - 1]);
        if exists|i: int| 0 <= i < init.len() && #[trigger] init[i] is Some {
            let i = choose|i: int| 0 <= i < init.len() && #[trigger] init[i] is Some;
            assert(results[i] is Some);
        }
        if exists|i: int| 0 <= i < results.len() && #[trigger] results[i] is Some {
            let i = choose|i: int| 0 <= i < results.len() && #[trigger] results[i] is Some;
            if i < init.len() {
                assert(init[i] is Some);
            }
        }
        if last_some(init) is Some && results.last() is None {
            let i = choose|i: int| 0 <= i < init.len() && init[i] == last_some(init);
            assert(results[i] == last_some(init));
        }
    }
}

/// If every key pair of a worker is a hit, so is the key pair that the search gives.
pub proof fn search_gives_a_hit(
    results: Seq<Option<VanityResult>>,
    suffix: Seq<char>,
    case_insensitive: bool,
)
    requires
        forall|i: int|
            0 <= i < results.len() ==> (#[trigger] results[i] matches Some(r) ==> r.is_hit_for(
                suffix,
                case_insensitive,
            )),
    ensures
        last_some(results) matches Some(r) ==> r.is_hit_for(suffix, case_insensitive),
{
    search_succeeds_with_any_worker(results);
}

/// Whatever happens, a worker's batch is never overfull and the key pair that it holds is
/// a hit for the suffix it started with.
pub proof fn worker_stays_well_formed(start: WorkerModel, events: Seq<Event>)
    requires
        start.wf(),
    ensures
        start.after_all(events).wf(),
        start.after_all(events).suffix == start.suffix,
        start.after_all(events).case_insensitive == start.case_insensitive,
    decreases events.len(),
{
    if events.len() > 0 {
        worker_stays_well_formed(start, events.drop_last());
    }
}

/// No attempt is lost and none is counted twice: what a worker has drawn is what it has
/// added to the shared counter and what it still has to add.
pub proof fn attempts_are_conserved(start: WorkerModel, events: Seq<Event>)
    requires
        start.wf(),
    ensures
        start.uncredited() + start.keys_taken(events) == start.credited(events)
            + start.after_all(events).uncredited(),
    decreases events.len(),
{
    if events.len() > 0 {
        attempts_are_conserved(start, events.drop_last());
        worker_stays_well_formed(start, events.drop_last());
    }
}

/// A worker reports once for every full batch without a hit, each time the size of a
/// batch, and not for the batch with the hit: apart from a report that is due, what it has
/// drawn is what it has reported and the attempts of the batch that it is in.
pub proof fn one_report_for_each_full_batch(start: WorkerModel, events: Seq<Event>)
    requires
        start.wf(),
        start.phase is Checking,
        start.local_attempts == 0,
    ensures
        ({
            let end = start.after_all(events);
            let due: nat = if end.phase is Reporting {
                1
            } else {
                0
            };
            &&& start.full_batches(events) == start.reports(events).len() + due
            &&& start.keys_taken(events) == BATCH_SIZE * start.full_batches(events)
                + end.local_attempts
        }),
        forall|i: int|
            0 <= i < start.reports(events).len() ==> #[trigger] start.reports(events)[i]
                == BATCH_SIZE,
    decreases events.len(),
{
    if events.len() > 0 {
        one_report_for_each_full_batch(start, events.drop_last());
        worker_stays_well_formed(start, events.drop_last());
    }
}

/// A worker raises the flag before it counts the attempts up to its hit, so that the
/// others stop as early as they can.
pub proof fn hit_is_announced_before_it_is_counted(start: WorkerModel, events: Seq<Event>)
    requires
        start.held() is None,
        start.after_all(events).phase is Crediting || start.after_all(events).phase is Found,
    ensures
        exists|i: int| 0 <= i < events.len() && #[trigger] events[i] is Raised,
    decreases events.len(),
{
    if events.len() > 0 {
        let init = events.drop_last();
        let before = start.after_all(init);
        if before.phase is Crediting || before.phase is Found {
            hit_is_announced_before_it_is_counted(start, init);
            let i = choose|i: int| 0 <= i < init.len() && #[trigger] init[i] is Raised;
            assert(events[i] is Raised);
        } else {
            assert(events[events.len() - 1] is Raised);
        }
    }
}

/// A worker that is done stays as it is.
pub proof fn finished_worker_stays_finished(end: WorkerModel, events: Seq<Event>)
    requires
        end.action() == Action::Finish,
    ensures
        end.after_all(events) == end,
    decreases events.len(),
{
    if events.len() > 0 {
        finished_worker_stays_finished(end, events.drop_last());
    }
}

/// A batch that is exhausted hands its size to `Sender::try_send`.
proof fn exhausted_batch_is_sent(
    before: Worker,
    after: Worker,
    found: &AtomicBool,
    attempts_counter: &AtomicU64,
    sender: Sender<u64>,
)
    requires
        exists|worker: &mut Worker|
            {
                &&& *worker == before
                &&& *final(worker) == after
                &&& #[trigger] call_ensures(
                    Worker::run_batch,
                    (worker, found, attempts_counter, &Some(sender)),
                    Batch::Exhausted,
                )
            },
    ensures
        call_ensures(sender_try_send, (&sender, 1024u64), ()),
{
}

} // verus!
