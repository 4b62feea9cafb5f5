//! Several workers at once: how they share the flag and the counter of attempts.
//!
//! A search is a series of moves. In each move one worker performs the action that it
//! waits for, on the shared flag, the shared counter and the channel for progress. Which
//! worker moves, which key pair it draws and whether the channel takes its report is left
//! to the schedule.
//!
//! The laws here are about `SearchModel`. The contract of `Worker::run_batch` says which calls
//! are made on the atomics and the channel, with which arguments, and what a worker makes of
//! what they return. What those calls do to the contents, and that no further calls are made,
//! is not stated there, as the contents have no value in a contract; that they are what
//! `SearchModel::after` says rests on reading `Worker::perform`.

use vstd::prelude::*;

use crate::keys::Candidate;
use crate::vanity::VanityResult;
use crate::worker::{
    last_some, search_succeeds_with_any_worker, wrapped_sum, Action, Event, Phase, WorkerModel,
};

verus! {

/// One move: the worker that moves, the key pair that it gets if it draws one, and whether
/// its report is taken if it makes one.
pub struct Move {
    pub worker: int,
    pub key: Candidate,
    pub delivered: bool,
}

/// The state of a search: the workers, the flag, the counter, how many key pairs were
/// drawn, and the reports that the channel took.
#[verifier::ext_equal]
pub struct SearchModel {
    pub workers: Seq<WorkerModel>,
    pub found: bool,
    pub attempts: u64,
    pub drawn: nat,
    pub received: Seq<u64>,
}

/// How many attempts of the workers the counter does not hold yet.
pub open spec fn total_uncredited(workers: Seq<WorkerModel>) -> nat
    decreases workers.len(),
{
    if workers.len() == 0 {
        0
    } else {
        total_uncredited(workers.drop_last()) + workers.last().uncredited()
    }
}

impl SearchModel {
    /// No worker has done anything yet, and nobody has raised the flag.
    pub open spec fn is_start(self) -> bool {
        &&& !self.found
        &&& self.drawn == 0
        &&& forall|i: int|
            0 <= i < self.workers.len() ==> {
                &&& (#[trigger] self.workers[i]).phase is Checking
                &&& self.workers[i].local_attempts == 0
            }
    }

    /// What comes back from the action of a worker.
    pub open spec fn event(self, m: Move) -> Event {
        match self.workers[m.worker].action() {
            Action::ReadFlag => Event::Flag(self.found),
            Action::DrawKey => Event::Key(m.key),
            Action::RaiseFlag => Event::Raised,
            Action::AddAttempts(_) => Event::Added(self.attempts),
            Action::Report(_) => Event::Reported,
            Action::Finish => Event::Reported,
        }
    }

    /// The state after a move. A move of a worker that there is not changes nothing.
    pub open spec fn after(self, m: Move) -> SearchModel {
        if 0 <= m.worker < self.workers.len() {
            let action = self.workers[m.worker].action();
            SearchModel {
                workers: self.workers.update(
                    m.worker,
                    self.workers[m.worker].after(self.event(m)),
                ),
                found: self.found || action == Action::RaiseFlag,
                attempts: match action {
                    Action::AddAttempts(n) => wrapped_sum(self.attempts as nat, n as nat),
                    _ => self.attempts,
                },
                drawn: if action == Action::DrawKey {
                    self.drawn + 1
                } else {
                    self.drawn
                },
                received: match action {
                    Action::Report(n) => if m.delivered {
                        self.received.push(n)
                    } else {
                        self.received
                    },
                    _ => self.received,
                },
            }
        } else {
            self
        }
    }

    /// The state after several moves.
    pub open spec fn after_all(self, moves: Seq<Move>) -> SearchModel
        decreases moves.len(),
    {
        if moves.len() == 0 {
            self
        } else {
            self.after_all(moves.drop_last()).after(moves.last())
        }
    }

    /// Every worker is done.
    pub open spec fn is_over(self) -> bool {
        forall|i: int|
            0 <= i < self.workers.len() ==> (#[trigger] self.workers[i]).action() == Action::Finish
    }

    /// Worker `i` has a hit that it has announced.
    pub open spec fn has_announced(self, i: int) -> bool {
        0 <= i < self.workers.len() && (self.workers[i].phase is Crediting
            || self.workers[i].phase is Found)
    }

    /// Every worker is well formed, the flag is raised only by a worker with a hit, and a
    /// worker gives up only because the flag is raised.
    pub open spec fn wf(self) -> bool {
        &&& forall|i: int| 0 <= i < self.workers.len() ==> (#[trigger] self.workers[i]).wf()
        &&& self.found ==> exists|i: int| self.has_announced(i)
        &&& forall|i: int|
            0 <= i < self.workers.len() && (#[trigger] self.workers[i]).phase is Cancelled
                ==> self.found
    }
}

/// A search stays well formed, and each worker keeps searching for what it started with.
pub proof fn search_stays_well_formed(start: SearchModel, moves: Seq<Move>)
    requires
        start.wf(),
    ensures
        start.after_all(moves).wf(),
        start.after_all(moves).workers.len() == start.workers.len(),
        forall|i: int|
            0 <= i < start.workers.len() ==> {
                &&& (#[trigger] start.after_all(moves).workers[i]).suffix
                    == start.workers[i].suffix
                &&& start.after_all(moves).workers[i].case_insensitive
                    == start.workers[i].case_insensitive
            },
    decreases moves.len(),
{
    if moves.len() > 0 {
        let before = start.after_all(moves.drop_last());
        let m = moves.last();
        let after = before.after(m);
        search_stays_well_formed(start, moves.drop_last());
        if 0 <= m.worker < before.workers.len() {
            let w = before.workers[m.worker];
            assert(w.wf());
            assert(after.workers[m.worker] == w.after(before.event(m)));
            if after.found {
                if before.found {
                    let i = choose|i: int| before.has_announced(i);
                    assert(before.workers[i].wf());
                    assert(after.has_announced(i));
                } else {
                    assert(after.has_announced(m.worker));
                }
            }
            assert forall|i: int|
                0 <= i < after.workers.len() && (#[trigger] after.workers[i]).phase
                    is Cancelled implies after.found by {
                if i != m.worker {
                    assert(after.workers[i] == before.workers[i]);
                } else if w.phase is Cancelled {
                    assert(before.workers[i].phase is Cancelled);
                }
            }
        }
    }
}

/// A search with at least one worker, whose flag nobody else raises, has a key pair once
/// every worker is done: some worker has found one, and the search gives one.
pub proof fn finished_search_has_a_key_pair(
    start: SearchModel,
    moves: Seq<Move>,
    results: Seq<Option<VanityResult>>,
)
    requires
        start.is_start(),
        start.workers.len() > 0,
        start.after_all(moves).is_over(),
        results.len() == start.workers.len(),
        forall|i: int|
            0 <= i < results.len() ==> (#[trigger] results[i] is Some <==> start.after_all(
                moves,
            ).workers[i].phase is Found),
    ensures
        start.after_all(moves).found,
        exists|i: int|
            0 <= i < start.workers.len() && #[trigger] start.after_all(moves).workers[i].phase
                is Found,
        last_some(results) is Some,
{
    let end = start.after_all(moves);
    search_stays_well_formed(start, moves);
    assert(end.workers[0].action() == Action::Finish);
    if !(end.workers[0].phase is Cancelled) {
        finder_has_announced(start, moves, 0);
    }
    let i = choose|i: int| end.has_announced(i);
    assert(end.workers[i].action() == Action::Finish);
    assert(end.workers[i].phase is Found);
    assert(results[i] is Some);
    search_succeeds_with_any_worker(results);
}

/// A worker that has announced its hit has raised the flag.
pub proof fn finder_has_announced(start: SearchModel, moves: Seq<Move>, i: int)
    requires
        start.is_start(),
        start.after_all(moves).has_announced(i),
    ensures
        start.after_all(moves).found,
    decreases moves.len(),
{
    if moves.len() > 0 {
        let before = start.after_all(moves.drop_last());
        if before.has_announced(i) {
            finder_has_announced(start, moves.drop_last(), i);
        }
    } else {
        assert(start.workers[i].phase is Checking);
    }
}

/// Whether the channel takes a report makes no difference to the search: with the same
/// workers moving and the same key pairs drawn, the workers, the flag and the counter end
/// the same.
pub proof fn progress_channel_does_not_matter(start: SearchModel, a: Seq<Move>, b: Seq<Move>)
    requires
        a.len() == b.len(),
        forall|k: int|
            0 <= k < a.len() ==> (#[trigger] a[k]).worker == b[k].worker && a[k].key == b[k].key,
    ensures
        start.after_all(a).workers == start.after_all(b).workers,
        start.after_all(a).found == start.after_all(b).found,
        start.after_all(a).attempts == start.after_all(b).attempts,
        start.after_all(a).drawn == start.after_all(b).drawn,
    decreases a.len(),
{
    if a.len() > 0 {
        assert(a.last() == a[a.len() - 1]);
        let x = a.drop_last();
        let y = b.drop_last();
        assert forall|k: int| 0 <= k < x.len() implies (#[trigger] x[k]).worker == y[k].worker
            && x[k].key == y[k].key by {
            assert(x[k] == a[k]);
        }
        progress_channel_does_not_matter(start, x, y);
    }
}

proof fn total_uncredited_of_update(workers: Seq<WorkerModel>, i: int, w: WorkerModel)
    requires
        0 <= i < workers.len(),
    ensures
        total_uncredited(workers.update(i, w)) + workers[i].uncredited() == total_uncredited(
            workers,
        ) + w.uncredited(),
    decreases workers.len(),
{
    let updated = workers.update(i, w);
    if i == workers.len() - 1 {
        assert(updated.drop_last() == workers.drop_last());
    } else {
        total_uncredited_of_update(workers.drop_last(), i, w);
        assert(updated.drop_last() == workers.drop_last().update(i, w));
    }
}

proof fn total_uncredited_at_start(workers: Seq<WorkerModel>)
    requires
        forall|i: int| 0 <= i < workers.len() ==> (#[trigger] workers[i]).uncredited() == 0,
    ensures
        total_uncredited(workers) == 0,
    decreases workers.len(),
{
    if workers.len() > 0 {
        total_uncredited_at_start(workers.drop_last());
        assert(workers.last() == workers[workers.len() - 1]);
    }
}

/// The counter accounts for all workers: as long as fewer than two to the power 64 key
/// pairs are counted, it holds what it held at the start and every key pair drawn since,
/// but for those that a worker still has to add.
pub proof fn counter_accounts_for_all_workers(start: SearchModel, moves: Seq<Move>)
    requires
        start.is_start(),
        start.attempts + start.after_all(moves).drawn <= u64::MAX,
    ensures
        start.attempts + start.after_all(moves).drawn == start.after_all(moves).attempts
            + total_uncredited(start.after_all(moves).workers),
    decreases moves.len(),
{
    if moves.len() == 0 {
        assert forall|i: int| 0 <= i < start.workers.len() implies (
        #[trigger] start.workers[i]).uncredited() == 0 by {
            assert(start.workers[i].phase is Checking);
        }
        total_uncredited_at_start(start.workers);
    } else {
        let before = start.after_all(moves.drop_last());
        let m = moves.last();
        counter_accounts_for_all_workers(start, moves.drop_last());
        search_stays_well_formed(start, moves.drop_last());
        if 0 <= m.worker < before.workers.len() {
            let w = before.workers[m.worker];
            assert(w.wf());
            total_uncredited_of_update(before.workers, m.worker, w.after(before.event(m)));
            total_uncredited_of_update(before.workers, m.worker, w);
            uncredited_is_part(before.workers, m.worker);
        }
    }
}

proof fn uncredited_is_part(workers: Seq<WorkerModel>, i: int)
    requires
        0 <= i < workers.len(),
    ensures
        workers[i].uncredited() <= total_uncredited(workers),
    decreases workers.len(),
{
    if i < workers.len() - 1 {
        uncredited_is_part(workers.drop_last(), i);
    }
}

/// The counter never falls in the course of a search, as long as fewer than two to the
/// power 64 key pairs are counted.
pub proof fn counter_never_falls(start: SearchModel, earlier: Seq<Move>, later: Seq<Move>)
    requires
        start.is_start(),
        start.attempts + start.after_all(earlier + later).drawn <= u64::MAX,
    ensures
        start.after_all(earlier).attempts <= start.after_all(earlier + later).attempts,
    decreases later.len(),
{
    if later.len() == 0 {
        assert(earlier + later == earlier);
    } else {
        let moves = earlier + later;
        let before = start.after_all(moves.drop_last());
        let m = moves.last();
        assert(moves.drop_last() == earlier + later.drop_last());
        counter_never_falls(start, earlier, later.drop_last());
        counter_accounts_for_all_workers(start, moves.drop_last());
        search_stays_well_formed(start, moves.drop_last());
        if 0 <= m.worker < before.workers.len() {
            assert(before.workers[m.worker].wf());
            uncredited_is_part(before.workers, m.worker);
        }
    }
}

/// What a worker gives as the number of attempts lies between one more than the counter held
/// at the start and what it holds at the end, as long as fewer than two to the power 64 key
/// pairs are counted. If the worker is alone, it is what the counter held at the start and
/// every key pair drawn since.
pub proof fn found_count_lies_within_the_search(
    start: SearchModel,
    moves: Seq<Move>,
    i: int,
    found: Candidate,
    attempts: u64,
)
    requires
        start.is_start(),
        start.attempts + start.after_all(moves).drawn <= u64::MAX,
        0 <= i < start.workers.len(),
        start.after_all(moves).workers[i].phase == Phase::Found(found, attempts),
    ensures
        start.attempts + 1 <= attempts <= start.after_all(moves).attempts,
        start.workers.len() == 1 ==> attempts == start.attempts + start.after_all(moves).drawn,
        start.workers.len() == 1 ==> attempts == start.after_all(moves).attempts,
    decreases moves.len(),
{
    if moves.len() == 0 {
        assert(start.workers[i].phase is Checking);
    } else {
        let init = moves.drop_last();
        let before = start.after_all(init);
        let m = moves.last();
        search_stays_well_formed(start, init);
        assert(init + seq![m] == moves);
        counter_never_falls(start, init, seq![m]);
        if before.workers[i].phase is Found {
            found_count_lies_within_the_search(start, init, i, found, attempts);
        } else {
            let w = before.workers[i];
            assert(w.wf());
            assert(m.worker == i);
            counter_accounts_for_all_workers(start, init);
            uncredited_is_part(before.workers, i);
            assert(Seq::<Move>::empty() + init == init);
            counter_never_falls(start, Seq::empty(), init);
            if start.workers.len() == 1 {
                assert(total_uncredited(before.workers.drop_last()) == 0);
            }
        }
    }
}

/// The number of attempts in what the search gives lies between one more than the counter
/// held at the start and what it holds at the end, as long as fewer than two to the power 64
/// key pairs are counted. With one worker it is what the counter held at the start and every
/// key pair drawn since.
pub proof fn search_gives_a_count_within_it(
    start: SearchModel,
    moves: Seq<Move>,
    results: Seq<Option<VanityResult>>,
)
    requires
        start.is_start(),
        start.attempts + start.after_all(moves).drawn <= u64::MAX,
        results.len() == start.workers.len(),
        forall|i: int|
            0 <= i < results.len() ==> (#[trigger] results[i] matches Some(r) ==> {
                &&& start.after_all(moves).workers[i].phase matches Phase::Found(_, attempts)
                &&& r.attempts == attempts
            }),
    ensures
        last_some(results) matches Some(r) ==> {
            &&& start.attempts + 1 <= r.attempts <= start.after_all(moves).attempts
            &&& start.workers.len() == 1 ==> r.attempts == start.attempts + start.after_all(
                moves,
            ).drawn
        },
{
    search_succeeds_with_any_worker(results);
    if let Some(r) = last_some(results) {
        let i = choose|i: int| 0 <= i < results.len() && results[i] == Some(r);
        if let Phase::Found(found, attempts) = start.after_all(moves).workers[i].phase {
            found_count_lies_within_the_search(start, moves, i, found, attempts);
        }
    }
}

} // verus!
