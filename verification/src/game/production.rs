use vstd::prelude::*;

use crate::turn::mask::{spec_worker_bit, WorkerMask};

verus! {

/// The eight worker slots a player may deploy.
#[derive(Debug, PartialEq, Eq, Structural, Hash, Clone, Copy)]
pub enum Worker {
    First,
    Second,
    Third,
    Fourth,
    Fifth,
    Sixth,
    Seventh,
    Eighth,
}

pub open spec fn spec_worker_index(worker: Worker) -> int {
    match worker {
        Worker::First => 0,
        Worker::Second => 1,
        Worker::Third => 2,
        Worker::Fourth => 3,
        Worker::Fifth => 4,
        Worker::Sixth => 5,
        Worker::Seventh => 6,
        Worker::Eighth => 7,
    }
}

impl Worker {
    pub fn index(self) -> (r: usize)
        ensures
            r == spec_worker_index(self),
    {
        match self {
            Worker::First => 0,
            Worker::Second => 1,
            Worker::Third => 2,
            Worker::Fourth => 3,
            Worker::Fifth => 4,
            Worker::Sixth => 5,
            Worker::Seventh => 6,
            Worker::Eighth => 7,
        }
    }
}

/// Per-slot worker positions in the board arena (`None` while
/// undeployed). Slots fill in order; the star triggers once all eight
/// are deployed.
#[derive(Debug, Clone)]
pub struct ProductionState {
    pub workers: Vec<Option<usize>>,
    pub deployed_workers: usize,
    pub star: bool,
}

impl ProductionState {
    /// Shape invariant: one entry per worker slot, slots filled in order
    /// up to the deployed count.
    pub open spec fn wf(self) -> bool {
        &&& self.workers@.len() == 8
        &&& self.deployed_workers <= 8
        &&& forall|i: int|
            0 <= i < 8 ==> (self.workers@[i] is Some <==> i < self.deployed_workers)
    }

    pub open spec fn spec_get(self, worker: Worker) -> Option<usize> {
        self.workers@[spec_worker_index(worker)]
    }

    /// How many workers stand at the field.
    pub open spec fn spec_amount_upto(s: Seq<Option<usize>>, field: usize, n: int) -> int
        decreases n,
    {
        if n <= 0 {
            0
        } else {
            Self::spec_amount_upto(s, field, n - 1) + if s[n - 1] == Some(field) {
                1int
            } else {
                0int
            }
        }
    }

    pub open spec fn spec_amount(self, field: usize) -> int {
        Self::spec_amount_upto(self.workers@, field, self.workers@.len() as int)
    }

    /// The mask of deployed worker slots among the first `n`.
    pub open spec fn spec_deployed_upto(s: Seq<Option<usize>>, n: int) -> u8
        decreases n,
    {
        if n <= 0 {
            0
        } else {
            let prev = Self::spec_deployed_upto(s, n - 1);
            if s[n - 1] is Some {
                prev | spec_worker_bit_at(n - 1)
            } else {
                prev
            }
        }
    }

    /// The mask of worker slots standing at `field` among the first `n`.
    pub open spec fn spec_at_upto(s: Seq<Option<usize>>, field: usize, n: int) -> u8
        decreases n,
    {
        if n <= 0 {
            0
        } else {
            let prev = Self::spec_at_upto(s, field, n - 1);
            if s[n - 1] == Some(field) {
                prev | spec_worker_bit_at(n - 1)
            } else {
                prev
            }
        }
    }

    pub open spec fn spec_at(self, field: usize) -> WorkerMask {
        WorkerMask(Self::spec_at_upto(self.workers@, field, self.workers@.len() as int))
    }

    pub fn new() -> (r: ProductionState)
        ensures
            r.wf(),
            !r.star,
            r.deployed_workers == 0,
            r.workers@ == Seq::new(8, |i: int| None::<usize>),
            forall|w: Worker| r.spec_get(w) is None,
    {
        let mut workers: Vec<Option<usize>> = Vec::new();
        let mut k: usize = 0;
        while k < 8
            invariant
                0 <= k <= 8,
                workers@.len() == k,
                forall|i: int| 0 <= i < k ==> workers@[i] is None,
            decreases 8 - k,
        {
            workers.push(None);
            k = k + 1;
        }
        let r = ProductionState { workers, deployed_workers: 0, star: false };
        proof {
            assert(forall|w: Worker| 0 <= #[trigger] spec_worker_index(w) < 8);
            assert(r.workers@ =~= Seq::new(8, |i: int| None::<usize>));
        }
        r
    }

    /// Puts the next undeployed worker on a field; once all eight slots
    /// are filled the star triggers and further deployments change
    /// nothing.
    pub fn deploy(&mut self, tile: usize)
        requires
            old(self).wf(),
        ensures
            final(self).wf(),
            old(self).deployed_workers < 8 ==> {
                &&& final(self).workers@ == old(self).workers@.update(
                    old(self).deployed_workers as int,
                    Some(tile),
                )
                &&& final(self).deployed_workers == old(self).deployed_workers + 1
            },
            old(self).deployed_workers >= 8 ==> final(self).workers@ == old(self).workers@
                && final(self).deployed_workers == old(self).deployed_workers,
            final(self).star == (old(self).star || final(self).deployed_workers >= 8),
    {
        if self.deployed_workers < self.workers.len() {
            let i = self.deployed_workers;
            self.workers.set(i, Some(tile));
            self.deployed_workers = self.deployed_workers + 1;
        }

        if self.deployed_workers >= self.workers.len() {
            self.star = true;
        }
    }

    /// How many workers currently stand at the field.
    pub fn amount(&self, field: usize) -> (r: u8)
        requires
            self.wf(),
        ensures
            r == self.spec_amount(field),
    {
        let mut count: u8 = 0;
        let mut k: usize = 0;
        while k < self.workers.len()
            invariant
                0 <= k <= self.workers@.len(),
                self.workers@.len() == 8,
                count == Self::spec_amount_upto(self.workers@, field, k as int),
                count <= k,
            decreases self.workers@.len() - k,
        {
            match self.workers[k] {
                Some(f) => {
                    if f == field {
                        count = count + 1;
                    }
                }
                None => {}
            }
            k = k + 1;
        }
        count
    }

    pub fn get(&self, worker: Worker) -> (r: Option<usize>)
        requires
            self.wf(),
        ensures
            r == self.spec_get(worker),
    {
        self.workers[worker.index()]
    }

    /// The mask of deployed worker slots.
    pub fn get_deployed(&self) -> (r: WorkerMask)
        requires
            self.wf(),
        ensures
            r.0 == Self::spec_deployed_upto(self.workers@, self.workers@.len() as int),
    {
        let mut mask: u8 = 0;
        let mut k: usize = 0;
        while k < self.workers.len()
            invariant
                0 <= k <= self.workers@.len(),
                self.workers@.len() == 8,
                mask == Self::spec_deployed_upto(self.workers@, k as int),
            decreases self.workers@.len() - k,
        {
            if self.workers[k].is_some() {
                mask = mask | worker_bit_at(k);
            }
            k = k + 1;
        }
        WorkerMask(mask)
    }

    /// The mask of worker slots standing at the field.
    pub fn at(&self, field: usize) -> (r: WorkerMask)
        requires
            self.wf(),
        ensures
            r == self.spec_at(field),
    {
        let mut mask: u8 = 0;
        let mut k: usize = 0;
        while k < self.workers.len()
            invariant
                0 <= k <= self.workers@.len(),
                self.workers@.len() == 8,
                mask == Self::spec_at_upto(self.workers@, field, k as int),
            decreases self.workers@.len() - k,
        {
            match self.workers[k] {
                Some(f) => {
                    if f == field {
                        mask = mask | worker_bit_at(k);
                    }
                }
                None => {}
            }
            k = k + 1;
        }
        WorkerMask(mask)
    }
}

/// The bit of the worker in slot `i`.
pub open spec fn spec_worker_bit_at(i: int) -> u8 {
    if i == 0 {
        1
    } else if i == 1 {
        2
    } else if i == 2 {
        4
    } else if i == 3 {
        8
    } else if i == 4 {
        16
    } else if i == 5 {
        32
    } else if i == 6 {
        64
    } else if i == 7 {
        128
    } else {
        0
    }
}

fn worker_bit_at(i: usize) -> (r: u8)
    ensures
        r == spec_worker_bit_at(i as int),
{
    if i == 0 {
        1
    } else if i == 1 {
        2
    } else if i == 2 {
        4
    } else if i == 3 {
        8
    } else if i == 4 {
        16
    } else if i == 5 {
        32
    } else if i == 6 {
        64
    } else if i == 7 {
        128
    } else {
        0
    }
}

/// A worker's slot bit agrees with its slot index.
pub proof fn lemma_worker_bit_index(w: Worker)
    ensures
        spec_worker_bit(w) == spec_worker_bit_at(spec_worker_index(w)),
{
}

} // verus!
