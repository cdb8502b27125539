use vstd::prelude::*;

use crate::game::Resource;
use crate::game::board::ResourceField;
use crate::game::buildings::Building;
use crate::game::mechs::Mech;
use crate::game::production::Worker;
use crate::game::recruits::Recruit;
use crate::game::upgrades::{PrimaryUpgrade, SecondaryUpgrade};
use crate::template::Position;

verus! {

/// A complete turn descriptor: a primary action, optionally followed by
/// the player-mat-linked secondary action.
#[derive(Debug, PartialEq, Eq, Structural, Hash, Clone, Copy)]
pub enum TurnMask {
    PrimaryOnly(Primary),
    PrimaryAndSecondary(Primary, Secondary),
}

/// The board-aware primary action shapes.
#[derive(Debug, PartialEq, Eq, Structural, Hash, Clone, Copy)]
pub enum Primary {
    Bolster,
    Enforce,
    Produce(Produce),
    Move(Move),
    Tax,
    Trade(Trade),
    Promote,
}

/// Produce at one to three workers' fields; three require the produce
/// upgrade.
#[derive(Debug, PartialEq, Eq, Structural, Hash, Clone, Copy)]
pub enum Produce {
    Produce1(Worker),
    Produce2(Worker, Worker),
    Produce3(Worker, Worker, Worker),
}

/// Trade at the fields of one or two named units.
#[derive(Debug, PartialEq, Eq, Structural, Hash, Clone, Copy)]
pub enum Trade {
    Trade1(TradeUnit),
    Trade2(TradeUnit, TradeUnit),
}

/// One trade: the unit whose field trades, the resource taken from the
/// field, and the resource granted in exchange.
#[derive(Debug, PartialEq, Eq, Structural, Hash, Clone, Copy)]
pub struct TradeUnit {
    pub unit: UnitPosition,
    pub from: Resource,
    pub to: Resource,
}

/// One to three chained sub-movements; three require the move upgrade.
#[derive(Debug, PartialEq, Eq, Structural, Hash, Clone, Copy)]
pub enum Move {
    Move1(UnitMovement),
    Move2(UnitMovement, UnitMovement),
    Move3(UnitMovement, UnitMovement, UnitMovement),
}

/// Which unit moves and how.
#[derive(Debug, PartialEq, Eq, Structural, Hash, Clone, Copy)]
pub enum UnitMovement {
    Character(Movement<NormalMove>),
    Worker(Worker, Movement<NormalMove>),
    Mech(Mech, Movement<MechMove>),
}

/// A one- or two-hop movement.
#[derive(Debug, PartialEq, Eq, Structural, Hash, Clone, Copy)]
pub enum Movement<Pos> {
    Single(Pos),
    Double(Pos, Pos),
}

/// One hop of a character or worker: target position and the resources
/// carried along.
#[derive(Debug, PartialEq, Eq, Structural, Hash, Clone, Copy)]
pub struct NormalMove {
    pub position: Position,
    pub resources: ResourceField,
}

/// One hop of a mech: target position, the workers carried, and the
/// resources carried along.
#[derive(Debug, PartialEq, Eq, Structural, Hash, Clone, Copy)]
pub struct MechMove {
    pub position: Position,
    pub workers: WorkerMask,
    pub resources: ResourceField,
}

/// A fixed-width bit set with one bit per worker slot.
#[derive(Debug, PartialEq, Eq, Structural, Hash, Clone, Copy)]
pub struct WorkerMask(pub u8);

/// The bit that stands for one worker.
pub open spec fn spec_worker_bit(worker: Worker) -> u8 {
    match worker {
        Worker::First => 1,
        Worker::Second => 2,
        Worker::Third => 4,
        Worker::Fourth => 8,
        Worker::Fifth => 16,
        Worker::Sixth => 32,
        Worker::Seventh => 64,
        Worker::Eighth => 128,
    }
}

impl WorkerMask {
    /// Does `self` hold every bit of `other`?
    pub open spec fn spec_contains(self, other: WorkerMask) -> bool {
        self.0 & other.0 == other.0
    }

    /// Do `self` and `other` share a bit?
    pub open spec fn spec_intersects(self, other: WorkerMask) -> bool {
        self.0 & other.0 != 0
    }

    pub open spec fn spec_union(self, other: WorkerMask) -> WorkerMask {
        WorkerMask(self.0 | other.0)
    }

    pub open spec fn spec_difference(self, other: WorkerMask) -> WorkerMask {
        WorkerMask(self.0 & !other.0)
    }

    pub open spec fn spec_contains_worker(self, worker: Worker) -> bool {
        self.spec_contains(WorkerMask(spec_worker_bit(worker)))
    }

    pub fn empty() -> (r: WorkerMask)
        ensures
            r.0 == 0,
    {
        WorkerMask(0)
    }

    pub fn all() -> (r: WorkerMask)
        ensures
            r.0 == 0xff,
    {
        WorkerMask(0xff)
    }

    pub fn contains(&self, other: WorkerMask) -> (r: bool)
        ensures
            r == self.spec_contains(other),
    {
        self.0 & other.0 == other.0
    }

    pub fn intersects(&self, other: WorkerMask) -> (r: bool)
        ensures
            r == self.spec_intersects(other),
    {
        self.0 & other.0 != 0
    }

    pub fn union(self, other: WorkerMask) -> (r: WorkerMask)
        ensures
            r == self.spec_union(other),
    {
        WorkerMask(self.0 | other.0)
    }

    pub fn difference(self, other: WorkerMask) -> (r: WorkerMask)
        ensures
            r == self.spec_difference(other),
    {
        WorkerMask(self.0 & !other.0)
    }

    pub fn contains_worker(&self, worker: Worker) -> (r: bool)
        ensures
            r == self.spec_contains_worker(worker),
    {
        self.contains(WorkerMask::get_worker(worker))
    }

    /// The single-bit mask of one worker.
    pub fn get_worker(worker: Worker) -> (r: WorkerMask)
        ensures
            r.0 == spec_worker_bit(worker),
    {
        match worker {
            Worker::First => WorkerMask(1),
            Worker::Second => WorkerMask(2),
            Worker::Third => WorkerMask(4),
            Worker::Fourth => WorkerMask(8),
            Worker::Fifth => WorkerMask(16),
            Worker::Sixth => WorkerMask(32),
            Worker::Seventh => WorkerMask(64),
            Worker::Eighth => WorkerMask(128),
        }
    }
}

/// A fixed-width bit set with one bit per mech slot.
#[derive(Debug, PartialEq, Eq, Structural, Hash, Clone, Copy)]
pub struct MechMask(pub u8);

/// The bit that stands for one mech.
pub open spec fn spec_mech_bit(mech: Mech) -> u8 {
    match mech {
        Mech::First => 1,
        Mech::Second => 2,
        Mech::Third => 4,
        Mech::Fourth => 8,
    }
}

impl MechMask {
    pub open spec fn spec_contains(self, other: MechMask) -> bool {
        self.0 & other.0 == other.0
    }

    pub open spec fn spec_union(self, other: MechMask) -> MechMask {
        MechMask(self.0 | other.0)
    }

    pub open spec fn spec_contains_mech(self, mech: Mech) -> bool {
        self.spec_contains(MechMask(spec_mech_bit(mech)))
    }

    pub fn empty() -> (r: MechMask)
        ensures
            r.0 == 0,
    {
        MechMask(0)
    }

    pub fn all() -> (r: MechMask)
        ensures
            r.0 == 0xf,
    {
        MechMask(0xf)
    }

    pub fn contains(&self, other: MechMask) -> (r: bool)
        ensures
            r == self.spec_contains(other),
    {
        self.0 & other.0 == other.0
    }

    pub fn union(self, other: MechMask) -> (r: MechMask)
        ensures
            r == self.spec_union(other),
    {
        MechMask(self.0 | other.0)
    }

    pub fn contains_mech(&self, mech: Mech) -> (r: bool)
        ensures
            r == self.spec_contains_mech(mech),
    {
        self.contains(MechMask::get_mech(mech))
    }

    /// The single-bit mask of one mech.
    pub fn get_mech(mech: Mech) -> (r: MechMask)
        ensures
            r.0 == spec_mech_bit(mech),
    {
        match mech {
            Mech::First => MechMask(1),
            Mech::Second => MechMask(2),
            Mech::Third => MechMask(4),
            Mech::Fourth => MechMask(8),
        }
    }
}

/// A mask always holds its own union, and a union keeps every bit that
/// was already held.
pub proof fn lemma_union_contains(a: u8, b: u8, c: u8)
    ensures
        (a | b) & b == b,
        a & c == c ==> (a | b) & c == c,
        a & c != 0 ==> (a | b) & c != 0,
{
    assert((a | b) & b == b) by (bit_vector);
    assert(a & c == c ==> (a | b) & c == c) by (bit_vector);
    assert(a & c != 0 ==> (a | b) & c != 0) by (bit_vector);
}

/// Distinct workers use disjoint bits, and no worker bit is empty.
pub proof fn lemma_worker_bits(w1: Worker, w2: Worker)
    ensures
        spec_worker_bit(w1) != 0,
        w1 != w2 ==> spec_worker_bit(w1) & spec_worker_bit(w2) == 0,
{
    let a = spec_worker_bit(w1);
    let b = spec_worker_bit(w2);
    assert((a == 1 || a == 2 || a == 4 || a == 8 || a == 16 || a == 32 || a == 64 || a == 128)
        && (b == 1 || b == 2 || b == 4 || b == 8 || b == 16 || b == 32 || b == 64 || b == 128)
        && a != b ==> a & b == 0) by (bit_vector);
    assert(a != 0);
    if w1 != w2 {
        assert(a != b);
    }
}

/// Distinct mechs use disjoint bits, and no mech bit is empty.
pub proof fn lemma_mech_bits(m1: Mech, m2: Mech)
    ensures
        spec_mech_bit(m1) != 0,
        m1 != m2 ==> spec_mech_bit(m1) & spec_mech_bit(m2) == 0,
{
    let a = spec_mech_bit(m1);
    let b = spec_mech_bit(m2);
    assert((a == 1 || a == 2 || a == 4 || a == 8) && (b == 1 || b == 2 || b == 4 || b == 8) && a
        != b ==> a & b == 0) by (bit_vector);
    assert(a != 0);
    if m1 != m2 {
        assert(a != b);
    }
}

/// The secondary action shapes, each carrying what it needs.
#[derive(Debug, PartialEq, Eq, Structural, Hash, Clone, Copy)]
pub enum Secondary {
    Upgrade(PrimaryUpgrade, SecondaryUpgrade, ResourceCost),
    Deploy(Mech, Worker, ResourceCost),
    Build(Building, Worker, ResourceCost),
    Enlist(Recruit, Recruit, ResourceCost),
}

/// Which units' fields pay a secondary action's resource cost.
#[derive(Debug, PartialEq, Eq, Structural, Hash, Clone, Copy)]
pub enum ResourceCost {
    One(UnitPosition),
    Two(UnitPosition, UnitPosition),
    Three(UnitPosition, UnitPosition, UnitPosition),
    Four(UnitPosition, UnitPosition, UnitPosition, UnitPosition),
}

/// A unit named by its slot, used to resolve the field it stands on.
#[derive(Debug, PartialEq, Eq, Structural, Hash, Clone, Copy)]
pub enum UnitPosition {
    Character,
    Worker(Worker),
    Mech(Mech),
    Building(Building),
}

} // verus!
