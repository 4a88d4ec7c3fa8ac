//! Which worker takes the next command: a fixed pool, a bounded queue per
//! worker, workers taken in turn, and nothing dropped when all are full.
use vstd::prelude::*;

verus! {

/// What becomes of a command that is submitted.
#[derive(Debug, Clone, Copy, PartialEq, Eq, Structural, Hash)]
pub enum Submission {
    /// The command goes to the queue of this worker.
    Deliver(usize),
    /// Every queue is full: the submitter waits and submits again.
    Wait,
    /// There is no worker at all: the request fails as an internal error.
    Unreachable,
}

/// The load of a pool of workers.
#[derive(Debug, Clone, PartialEq, Eq)]
pub struct Dispatcher {
    capacity: usize,
    load: Vec<usize>,
    next: usize,
}

pub ghost struct DispatcherModel {
    /// How many commands the queue of one worker holds at most.
    pub capacity: usize,
    /// How many commands each worker holds, queued or in work.
    pub load: Seq<usize>,
    /// The worker whose turn it is.
    pub next: int,
}

/// The worker `k` turns after `start` in a pool of `n`.
pub open spec fn spec_turn(start: int, k: int, n: int) -> int {
    if start + k < n {
        start + k
    } else {
        start + k - n
    }
}

/// How many turns after `start` it is the turn of `worker`.
pub open spec fn spec_turns_until(start: int, worker: int, n: int) -> int {
    if worker >= start {
        worker - start
    } else {
        worker + n - start
    }
}

impl DispatcherModel {
    pub open spec fn workers(self) -> int {
        self.load.len() as int
    }

    /// No queue holds more than its capacity, and the turn is a worker's.
    pub open spec fn wf(self) -> bool {
        &&& forall|w: int| 0 <= w < self.workers() ==> self.load[w] <= self.capacity
        &&& if self.workers() == 0 {
            self.next == 0
        } else {
            0 <= self.next < self.workers()
        }
    }

    pub open spec fn full(self) -> bool {
        forall|w: int| 0 <= w < self.workers() ==> self.load[w] >= self.capacity
    }

    /// `worker` has room, and every worker whose turn comes before has none.
    pub open spec fn first_with_room(self, worker: int) -> bool {
        &&& 0 <= worker < self.workers()
        &&& self.load[worker] < self.capacity
        &&& forall|v: int|
            0 <= v < self.workers() && spec_turns_until(self.next, v, self.workers())
                < spec_turns_until(self.next, worker, self.workers()) ==> #[trigger] self.load[v]
                >= self.capacity
    }

    /// The pool after `worker` took one more command.
    pub open spec fn delivered(self, worker: int) -> DispatcherModel {
        DispatcherModel {
            capacity: self.capacity,
            load: self.load.update(worker, (self.load[worker] + 1) as usize),
            next: spec_turn(worker, 1, self.workers()),
        }
    }

    /// The pool after `worker` finished a command.
    pub open spec fn completed(self, worker: int) -> DispatcherModel {
        DispatcherModel {
            capacity: self.capacity,
            load: self.load.update(worker, (self.load[worker] - 1) as usize),
            next: self.next,
        }
    }
}

impl View for Dispatcher {
    type V = DispatcherModel;

    closed spec fn view(&self) -> DispatcherModel {
        DispatcherModel { capacity: self.capacity, load: self.load@, next: self.next as int }
    }
}

impl Dispatcher {
    /// A pool of `workers` idle workers, each with room for `capacity`
    /// commands.
    pub fn new(workers: usize, capacity: usize) -> (r: Self)
        ensures
            r@.wf(),
            r@.capacity == capacity,
            r@.next == 0,
            r@.load == Seq::new(workers as nat, |w: int| 0usize),
    {
        let mut load: Vec<usize> = Vec::new();
        let mut i: usize = 0;
        while i < workers
            invariant
                i <= workers,
                load@.len() == i,
                forall|w: int| 0 <= w < i ==> load@[w] == 0,
            decreases workers - i,
        {
            load.push(0);
            i = i + 1;
        }
        proof {
            assert(load@ =~= Seq::new(workers as nat, |w: int| 0usize));
        }
        Dispatcher { capacity, load, next: 0 }
    }

    pub fn workers(&self) -> (n: usize)
        ensures
            n == self@.workers(),
    {
        self.load.len()
    }

    /// Finds the queue for one more command: that of the first worker with
    /// room, starting with the one whose turn it is; the turn then passes
    /// to the worker after it. Where every queue is full nothing changes
    /// and the submitter has to wait; where there is no worker the pool is
    /// unreachable. Every pool made by `new` and changed only by `submit`
    /// and `complete` is well formed.
    pub fn submit(&mut self) -> (r: Submission)
        ensures
            old(self)@.wf() ==> final(self)@.wf() && match r {
                Submission::Deliver(worker) => old(self)@.first_with_room(worker as int)
                    && final(self)@ == old(self)@.delivered(worker as int),
                Submission::Wait => old(self)@.workers() > 0 && old(self)@.full() && final(self)@
                    == old(self)@,
                Submission::Unreachable => old(self)@.workers() == 0 && final(self)@ == old(self)@,
            },
    {
        let n = self.load.len();
        if n == 0 {
            return Submission::Unreachable;
        }
        let start = if self.next < n { self.next } else { 0 };
        let mut k: usize = 0;
        let mut worker: usize = start;
        while k < n
            invariant
                *self == *old(self),
                n == self.load@.len(),
                n > 0,
                start < n,
                self@.wf() ==> start == self.next,
                k <= n,
                worker < n,
                k < n ==> worker == spec_turn(start as int, k as int, n as int),
                forall|j: int|
                    0 <= j < k ==> self.load@[spec_turn(start as int, j, n as int)] >= self.capacity,
            decreases n - k,
        {
            if self.load[worker] < self.capacity {
                proof {
                    assert(spec_turns_until(start as int, worker as int, n as int) == k);
                    assert forall|v: int|
                        0 <= v < n && spec_turns_until(start as int, v, n as int) < k implies (
                    #[trigger] self.load@[v]) >= self.capacity by {
                        let j = spec_turns_until(start as int, v, n as int);
                        assert(spec_turn(start as int, j, n as int) == v);
                    }
                }
                let held = self.load[worker];
                self.load.set(worker, held + 1);
                self.next = if worker + 1 == n { 0 } else { worker + 1 };
                proof {
                    assert(self@.load =~= old(self)@.delivered(worker as int).load);
                }
                return Submission::Deliver(worker);
            }
            worker = if worker + 1 == n { 0 } else { worker + 1 };
            k = k + 1;
        }
        proof {
            assert forall|w: int| 0 <= w < n implies self.load@[w] >= self.capacity by {
                let j = spec_turns_until(start as int, w, n as int);
                assert(spec_turn(start as int, j, n as int) == w);
            }
        }
        Submission::Wait
    }

    /// Takes note that `worker` finished a command. Says `false`, and
    /// changes nothing, where there is no such worker or it holds none.
    pub fn complete(&mut self, worker: usize) -> (r: bool)
        ensures
            old(self)@.wf() ==> final(self)@.wf(),
            r == (worker < old(self)@.workers() && old(self)@.load[worker as int] > 0),
            r ==> final(self)@ == old(self)@.completed(worker as int),
            !r ==> final(self)@ == old(self)@,
    {
        if worker < self.load.len() && self.load[worker] > 0 {
            let held = self.load[worker];
            self.load.set(worker, held - 1);
            true
        } else {
            false
        }
    }

    /// How many commands `worker` holds.
    pub fn load_of(&self, worker: usize) -> (r: Option<usize>)
        ensures
            r == if worker < self@.workers() {
                Some(self@.load[worker as int])
            } else {
                None
            },
    {
        if worker < self.load.len() {
            Some(self.load[worker])
        } else {
            None
        }
    }
}

/// A submission drops nothing: either one worker holds exactly one command
/// more and the others hold what they held, or nothing changed at all.
pub proof fn lemma_nothing_dropped(before: DispatcherModel, worker: int)
    requires
        before.wf(),
        before.first_with_room(worker),
    ensures
        before.delivered(worker).wf(),
        before.delivered(worker).load[worker] == before.load[worker] + 1,
        forall|w: int|
            0 <= w < before.workers() && w != worker ==> before.delivered(worker).load[w]
                == before.load[w],
{
}

/// While any worker has room a submission is delivered, never made to wait.
pub proof fn lemma_wait_only_when_full(before: DispatcherModel, w: int)
    requires
        before.wf(),
        0 <= w < before.workers(),
        before.load[w] < before.capacity,
    ensures
        !before.full(),
{
}

/// Submissions to idle workers with room take the workers in turn.
pub proof fn lemma_round_robin(before: DispatcherModel)
    requires
        before.wf(),
        before.workers() > 0,
        before.load[before.next] < before.capacity,
    ensures
        before.first_with_room(before.next),
        before.delivered(before.next).next == spec_turn(
            before.next,
            1,
            before.workers(),
        ),
{
}

} // verus!
