use vstd::prelude::*;

use crate::game::board::ResourceField;
use crate::game::game::Game;
use crate::game::mechs::Mech;
use crate::game::player::PlayerState;
use crate::game::production::Worker;
use crate::game::Resource;
use crate::game::Tile;
use crate::turn::mask::{
    lemma_mech_bits, lemma_union_contains, lemma_worker_bits, spec_mech_bit, spec_worker_bit,
    MechMask, Move, Movement, NormalMove, MechMove, Primary, Produce, Trade, TradeUnit,
    UnitMovement, WorkerMask,
};

verus! {

/// Every way the legality checker can reject a proposed primary action.
#[derive(Debug, PartialEq, Eq, Structural, Hash, Clone, Copy)]
pub enum CheckError {
    MoveNotEvolved,
    ProduceNotEvolved,
    NotEnoughCoinsToTrade,
    NotEnoughCoinsToPromote,
    NotEnoughCoinsToBolster,
    NotEnoughCoinsToEnforce,
    ResourceHistoryNegative,
    NotEnoughResourcesToMove,
    RequiredWorkersNotStationed,
    RequiredWorkersAlreadyStationed,
    SourceMissingWorkers,
    TargetHasWorkers,
    InvalidTargetPosition,
    InvalidTargetPositions,
    InvalidFirstTargetPosition,
    InvalidSecondTargetPosition,
    CharacterAlreadyMoved,
    WorkerAlreadyMoved,
    MechAlreadyMoved,
    WorkerNotDeployed,
    MechNotDeployed,
    UnitNotDeployed,
    UnitsNotDeployed,
    Unit1NotDeployed,
    Unit2NotDeployed,
    FieldNotControlled,
    FieldControlledByEnemy,
    NotEnoughResourcesToTrade,
    UnproducibleTile,
    DuplicateProduceTile,
    ProduceWorkerNotDeployed,
}

impl CheckError {
    /// The human-readable wording of each rejection.
    pub open spec fn spec_describe(self) -> Seq<char> {
        match self {
            CheckError::MoveNotEvolved => "Move3 is not evolved"@,
            CheckError::ProduceNotEvolved => "Produce3 is not evolved"@,
            CheckError::NotEnoughCoinsToTrade => "Not enough coins to trade"@,
            CheckError::NotEnoughCoinsToPromote => "Not enough coins to promote"@,
            CheckError::NotEnoughCoinsToBolster => "Not enough coins to bolster"@,
            CheckError::NotEnoughCoinsToEnforce => "Not enough coins to enforce"@,
            CheckError::ResourceHistoryNegative => "Resource history is negative"@,
            CheckError::NotEnoughResourcesToMove => "Not enough resources to take on this move"@,
            CheckError::RequiredWorkersNotStationed => "Required workers are not stationed at the field"@,
            CheckError::RequiredWorkersAlreadyStationed => "Required workers are already stationed at the field"@,
            CheckError::SourceMissingWorkers => "Source field does not have all the required workers stationed"@,
            CheckError::TargetHasWorkers => "Target field already has some required workers stationed"@,
            CheckError::InvalidTargetPosition => "Target position is not a valid field"@,
            CheckError::InvalidTargetPositions => "Target positions are not valid fields"@,
            CheckError::InvalidFirstTargetPosition => "First target position is not a valid field"@,
            CheckError::InvalidSecondTargetPosition => "Second target position is not a valid field"@,
            CheckError::CharacterAlreadyMoved => "Cannot move the character multiple times in one turn"@,
            CheckError::WorkerAlreadyMoved => "Cannot move the same worker multiple times in one turn"@,
            CheckError::MechAlreadyMoved => "Cannot move the same mech multiple times in one turn"@,
            CheckError::WorkerNotDeployed => "Worker is not deployed"@,
            CheckError::MechNotDeployed => "Mech is not deployed"@,
            CheckError::UnitNotDeployed => "Unit is not deployed"@,
            CheckError::UnitsNotDeployed => "Units are not deployed"@,
            CheckError::Unit1NotDeployed => "Unit 1 is not deployed"@,
            CheckError::Unit2NotDeployed => "Unit 2 is not deployed"@,
            CheckError::FieldNotControlled => "Field is not controlled"@,
            CheckError::FieldControlledByEnemy => "Field is controlled by enemy"@,
            CheckError::NotEnoughResourcesToTrade => "Not enough resources to trade"@,
            CheckError::UnproducibleTile => "Cannot produce on unproducible tiles"@,
            CheckError::DuplicateProduceTile => "Cannot produce on the same tile multiple times"@,
            CheckError::ProduceWorkerNotDeployed => "Worker is not deployed and cant produce"@,
        }
    }

    /// The human-readable wording of the rejection.
    pub fn describe(&self) -> (r: &'static str)
        ensures
            r@ == self.spec_describe(),
    {
        match self {
            CheckError::MoveNotEvolved => "Move3 is not evolved",
            CheckError::ProduceNotEvolved => "Produce3 is not evolved",
            CheckError::NotEnoughCoinsToTrade => "Not enough coins to trade",
            CheckError::NotEnoughCoinsToPromote => "Not enough coins to promote",
            CheckError::NotEnoughCoinsToBolster => "Not enough coins to bolster",
            CheckError::NotEnoughCoinsToEnforce => "Not enough coins to enforce",
            CheckError::ResourceHistoryNegative => "Resource history is negative",
            CheckError::NotEnoughResourcesToMove => "Not enough resources to take on this move",
            CheckError::RequiredWorkersNotStationed => "Required workers are not stationed at the field",
            CheckError::RequiredWorkersAlreadyStationed => "Required workers are already stationed at the field",
            CheckError::SourceMissingWorkers => "Source field does not have all the required workers stationed",
            CheckError::TargetHasWorkers => "Target field already has some required workers stationed",
            CheckError::InvalidTargetPosition => "Target position is not a valid field",
            CheckError::InvalidTargetPositions => "Target positions are not valid fields",
            CheckError::InvalidFirstTargetPosition => "First target position is not a valid field",
            CheckError::InvalidSecondTargetPosition => "Second target position is not a valid field",
            CheckError::CharacterAlreadyMoved => "Cannot move the character multiple times in one turn",
            CheckError::WorkerAlreadyMoved => "Cannot move the same worker multiple times in one turn",
            CheckError::MechAlreadyMoved => "Cannot move the same mech multiple times in one turn",
            CheckError::WorkerNotDeployed => "Worker is not deployed",
            CheckError::MechNotDeployed => "Mech is not deployed",
            CheckError::UnitNotDeployed => "Unit is not deployed",
            CheckError::UnitsNotDeployed => "Units are not deployed",
            CheckError::Unit1NotDeployed => "Unit 1 is not deployed",
            CheckError::Unit2NotDeployed => "Unit 2 is not deployed",
            CheckError::FieldNotControlled => "Field is not controlled",
            CheckError::FieldControlledByEnemy => "Field is controlled by enemy",
            CheckError::NotEnoughResourcesToTrade => "Not enough resources to trade",
            CheckError::UnproducibleTile => "Cannot produce on unproducible tiles",
            CheckError::DuplicateProduceTile => "Cannot produce on the same tile multiple times",
            CheckError::ProduceWorkerNotDeployed => "Worker is not deployed and cant produce",
        }
    }
}

/// The outcome of a legality check: `None` means legal, otherwise the
/// rejection.
pub type Reason = Option<CheckError>;

/// The transient validation ledger of one composite action: hypothetical
/// worker and resource relocations in declaration order, plus
/// already-moved flags per unit.
#[derive(Debug, Clone, PartialEq, Eq)]
pub struct History {
    pub worker: Vec<(usize, usize, WorkerMask)>,
    pub resource: Vec<(usize, usize, ResourceField)>,

    pub character_moved: bool,
    pub worker_moved: WorkerMask,
    pub mech_moved: MechMask,
}

/// The mathematical shadow of a ledger.
pub struct HistoryModel {
    pub worker: Seq<(usize, usize, WorkerMask)>,
    pub resource: Seq<(usize, usize, ResourceField)>,
    pub character_moved: bool,
    pub worker_moved: WorkerMask,
    pub mech_moved: MechMask,
}

impl View for History {
    type V = HistoryModel;

    open spec fn view(&self) -> HistoryModel {
        HistoryModel {
            worker: self.worker@,
            resource: self.resource@,
            character_moved: self.character_moved,
            worker_moved: self.worker_moved,
            mech_moved: self.mech_moved,
        }
    }
}

impl History {
    /// A fresh, empty ledger.
    pub fn new() -> (r: History)
        ensures
            r@.worker == Seq::<(usize, usize, WorkerMask)>::empty(),
            r@.resource == Seq::<(usize, usize, ResourceField)>::empty(),
            !r@.character_moved,
            r@.worker_moved.0 == 0,
            r@.mech_moved.0 == 0,
    {
        History {
            worker: Vec::new(),
            resource: Vec::new(),
            character_moved: false,
            worker_moved: WorkerMask::empty(),
            mech_moved: MechMask::empty(),
        }
    }
}

/// The resources available at `from` once the recorded relocations are
/// replayed in order over the starting inventory; `None` once a step
/// would drive a count negative.
pub open spec fn spec_available(
    start: ResourceField,
    hist: Seq<(usize, usize, ResourceField)>,
    from: usize,
) -> Option<ResourceField>
    decreases hist.len(),
{
    if hist.len() == 0 {
        Some(start)
    } else {
        let entry = hist[0];
        if entry.0 == entry.1 {
            spec_available(start, hist.drop_first(), from)
        } else {
            let after_sub = if entry.0 == from {
                start.spec_checked_sub(entry.2)
            } else {
                Some(start)
            };
            match after_sub {
                None => None,
                Some(v) => {
                    let after_add = if entry.1 == from {
                        v.spec_add(entry.2)
                    } else {
                        v
                    };
                    spec_available(after_add, hist.drop_first(), from)
                },
            }
        }
    }
}

/// Verdict and ledger of a resource-transfer check.
pub open spec fn spec_check_resources(
    start: ResourceField,
    h: HistoryModel,
    from: usize,
    to: usize,
    amount: ResourceField,
) -> (HistoryModel, Reason) {
    match spec_available(start, h.resource, from) {
        None => (h, Some(CheckError::ResourceHistoryNegative)),
        Some(available) => if available.spec_ge(amount) {
            (HistoryModel { resource: h.resource.push((from, to, amount)), ..h }, None)
        } else {
            (h, Some(CheckError::NotEnoughResourcesToMove))
        },
    }
}

/// Are all the requested resources at the source field after the moves
/// recorded so far? On success the transfer is appended to the ledger.
pub fn check_resources(game: &Game, from: usize, to: usize, amount: ResourceField, history: &mut
    History) -> (r: Reason)
    requires
        from < game.board.fields@.len(),
    ensures
        ({
            let expect = spec_check_resources(
                game.board.fields@[from as int].resources,
                old(history)@,
                from,
                to,
                amount,
            );
            final(history)@ == expect.0 && r == expect.1
        }),
{
    let ghost start_res = game.board.fields@[from as int].resources;
    let mut available = game.board.fields[from].resources;
    proof {
        assert(history.resource@.skip(0) =~= history.resource@);
    }
    let mut i: usize = 0;
    while i < history.resource.len()
        invariant
            0 <= i <= history.resource@.len(),
            history@ == old(history)@,
            from < game.board.fields@.len(),
            start_res == game.board.fields@[from as int].resources,
            spec_available(start_res, history.resource@, from) == spec_available(
                available,
                history.resource@.skip(i as int),
                from,
            ),
        decreases history.resource@.len() - i,
    {
        proof {
            assert(history.resource@.skip(i as int)[0] == history.resource@[i as int]);
            assert(history.resource@.skip(i as int).drop_first() =~= history.resource@.skip(
                i + 1,
            ));
        }
        let (a, b, amt) = history.resource[i];
        if a != b {
            if a == from {
                match available.checked_sub(amt) {
                    Some(sum) => {
                        available = sum;
                    }
                    None => {
                        proof {
                            assert(spec_available(
                                available,
                                history.resource@.skip(i as int),
                                from,
                            ) is None);
                        }
                        return Some(CheckError::ResourceHistoryNegative);
                    }
                }
            }
            if b == from {
                available = available.add(amt);
            }
        }
        i = i + 1;
    }
    proof {
        assert(history.resource@.skip(history.resource@.len() as int) =~= Seq::<
            (usize, usize, ResourceField),
        >::empty());
    }

    if available.ge(&amount) {
        history.resource.push((from, to, amount));
        None
    } else {
        Some(CheckError::NotEnoughResourcesToMove)
    }
}

/// The player's worker occupancy mask at field `f` once the worker
/// ledger is replayed in order; an error when a recorded relocation is
/// inconsistent with the occupancy built up so far.
pub open spec fn spec_adjusted_workers(
    stationed: WorkerMask,
    hist: Seq<(usize, usize, WorkerMask)>,
    f: usize,
) -> Result<WorkerMask, CheckError>
    decreases hist.len(),
{
    if hist.len() == 0 {
        Ok(stationed)
    } else {
        let entry = hist[0];
        if entry.0 == entry.1 {
            spec_adjusted_workers(stationed, hist.drop_first(), f)
        } else if entry.0 == f && !stationed.spec_contains(entry.2) {
            Err(CheckError::RequiredWorkersNotStationed)
        } else {
            let removed = if entry.0 == f {
                stationed.spec_difference(entry.2)
            } else {
                stationed
            };
            if entry.1 == f && removed.spec_intersects(entry.2) {
                Err(CheckError::RequiredWorkersAlreadyStationed)
            } else {
                let added = if entry.1 == f {
                    removed.spec_union(entry.2)
                } else {
                    removed
                };
                spec_adjusted_workers(added, hist.drop_first(), f)
            }
        }
    }
}

/// Verdict and ledger of a carried-workers check.
pub open spec fn spec_check_carry_workers(
    player: PlayerState,
    h: HistoryModel,
    from: usize,
    to: usize,
    workers: WorkerMask,
) -> (HistoryModel, Reason) {
    match spec_adjusted_workers(player.production.spec_at(from), h.worker, from) {
        Err(e) => (h, Some(e)),
        Ok(src) => match spec_adjusted_workers(player.production.spec_at(to), h.worker, to) {
            Err(e) => (h, Some(e)),
            Ok(dst) => if !src.spec_contains(workers) {
                (h, Some(CheckError::SourceMissingWorkers))
            } else if dst.spec_intersects(workers) {
                (h, Some(CheckError::TargetHasWorkers))
            } else {
                (HistoryModel { worker: h.worker.push((from, to, workers)), ..h }, None)
            },
        },
    }
}

/// Replays the worker ledger over the occupancy of one field.
fn adjusted_workers(player: &PlayerState, f: usize, history: &History) -> (r: Result<
    WorkerMask,
    CheckError,
>)
    requires
        player.production.wf(),
    ensures
        r == spec_adjusted_workers(player.production.spec_at(f), history@.worker, f),
{
    let mut stationed = player.production.at(f);
    let ghost start = player.production.spec_at(f);
    proof {
        assert(history.worker@.skip(0) =~= history.worker@);
    }
    let mut i: usize = 0;
    while i < history.worker.len()
        invariant
            0 <= i <= history.worker@.len(),
            start == player.production.spec_at(f),
            spec_adjusted_workers(start, history.worker@, f) == spec_adjusted_workers(
                stationed,
                history.worker@.skip(i as int),
                f,
            ),
        decreases history.worker@.len() - i,
    {
        proof {
            assert(history.worker@.skip(i as int)[0] == history.worker@[i as int]);
            assert(history.worker@.skip(i as int).drop_first() =~= history.worker@.skip(i + 1));
        }
        let (a, b, w) = history.worker[i];
        if a != b {
            if a == f {
                if !stationed.contains(w) {
                    proof {
                        assert(spec_adjusted_workers(
                            stationed,
                            history.worker@.skip(i as int),
                            f,
                        ) == Err::<WorkerMask, CheckError>(
                            CheckError::RequiredWorkersNotStationed,
                        ));
                    }
                    return Err(CheckError::RequiredWorkersNotStationed);
                }
                stationed = stationed.difference(w);
            }
            if b == f {
                if stationed.intersects(w) {
                    return Err(CheckError::RequiredWorkersAlreadyStationed);
                }
                stationed = stationed.union(w);
            }
        }
        i = i + 1;
    }
    proof {
        assert(history.worker@.skip(history.worker@.len() as int) =~= Seq::<
            (usize, usize, WorkerMask),
        >::empty());
    }
    Ok(stationed)
}

/// Are all the carried workers staged at the source field, and is none
/// of them already at the destination, after the moves recorded so far?
/// On success the relocation is appended to the ledger.
pub fn check_carry_workers(
    player: &PlayerState,
    from: usize,
    to: usize,
    workers: WorkerMask,
    history: &mut History,
) -> (r: Reason)
    requires
        player.production.wf(),
    ensures
        ({
            let expect = spec_check_carry_workers(*player, old(history)@, from, to, workers);
            final(history)@ == expect.0 && r == expect.1
        }),
{
    let src = match adjusted_workers(player, from, history) {
        Ok(m) => m,
        Err(e) => {
            return Some(e);
        },
    };
    let dst = match adjusted_workers(player, to, history) {
        Ok(m) => m,
        Err(e) => {
            return Some(e);
        },
    };
    if !src.contains(workers) {
        Some(CheckError::SourceMissingWorkers)
    } else if dst.intersects(workers) {
        Some(CheckError::TargetHasWorkers)
    } else {
        history.worker.push((from, to, workers));
        None
    }
}

/// Verdict and ledger of one character hop.
pub open spec fn spec_check_character_movement(
    h: HistoryModel,
    check_already_moved: bool,
) -> (HistoryModel, Reason) {
    if check_already_moved && h.character_moved {
        (h, Some(CheckError::CharacterAlreadyMoved))
    } else {
        (HistoryModel { character_moved: true, ..h }, None)
    }
}

/// Can the character make one hop: it must not have moved already this
/// turn.
pub fn check_character_movement(from: usize, to: usize, check_already_moved: bool, history: &mut
    History) -> (r: Reason)
    ensures
        ({
            let expect = spec_check_character_movement(old(history)@, check_already_moved);
            final(history)@ == expect.0 && r == expect.1
        }),
{
    if check_already_moved && history.character_moved {
        return Some(CheckError::CharacterAlreadyMoved);
    }
    history.character_moved = true;
    None
}

/// Verdict and ledger of one worker hop: the worker's own relocation is
/// recorded in the worker ledger.
pub open spec fn spec_check_worker_movement(
    h: HistoryModel,
    from: usize,
    to: usize,
    worker: Worker,
    check_already_moved: bool,
) -> (HistoryModel, Reason) {
    if check_already_moved && h.worker_moved.spec_contains_worker(worker) {
        (h, Some(CheckError::WorkerAlreadyMoved))
    } else {
        (
            HistoryModel {
                worker: h.worker.push((from, to, WorkerMask(spec_worker_bit(worker)))),
                worker_moved: h.worker_moved.spec_union(WorkerMask(spec_worker_bit(worker))),
                ..h
            },
            None,
        )
    }
}

/// Can the worker make one hop: it must not have moved already this
/// turn; its relocation joins the ledger.
pub fn check_worker_movement(
    from: usize,
    to: usize,
    worker: Worker,
    check_already_moved: bool,
    history: &mut History,
) -> (r: Reason)
    ensures
        ({
            let expect = spec_check_worker_movement(
                old(history)@,
                from,
                to,
                worker,
                check_already_moved,
            );
            final(history)@ == expect.0 && r == expect.1
        }),
{
    if check_already_moved && history.worker_moved.contains_worker(worker) {
        return Some(CheckError::WorkerAlreadyMoved);
    }

    let mask = WorkerMask::get_worker(worker);
    history.worker.push((from, to, mask));
    history.worker_moved = history.worker_moved.union(mask);
    None
}

/// Verdict and ledger of one mech hop.
pub open spec fn spec_check_mech_movement(
    h: HistoryModel,
    mech: Mech,
    check_already_moved: bool,
) -> (HistoryModel, Reason) {
    if check_already_moved && h.mech_moved.spec_contains_mech(mech) {
        (h, Some(CheckError::MechAlreadyMoved))
    } else {
        (
            HistoryModel {
                mech_moved: h.mech_moved.spec_union(MechMask(spec_mech_bit(mech))),
                ..h
            },
            None,
        )
    }
}

/// Can the mech make one hop: it must not have moved already this turn.
pub fn check_mech_movement(
    from: usize,
    to: usize,
    mech: Mech,
    check_already_moved: bool,
    history: &mut History,
) -> (r: Reason)
    ensures
        ({
            let expect = spec_check_mech_movement(old(history)@, mech, check_already_moved);
            final(history)@ == expect.0 && r == expect.1
        }),
{
    if check_already_moved && history.mech_moved.contains_mech(mech) {
        return Some(CheckError::MechAlreadyMoved);
    }

    let mask = MechMask::get_mech(mech);
    history.mech_moved = history.mech_moved.union(mask);
    None
}

/// The empty ledger a fresh validation starts from.
pub open spec fn spec_empty_history() -> HistoryModel {
    HistoryModel {
        worker: Seq::empty(),
        resource: Seq::empty(),
        character_moved: false,
        worker_moved: WorkerMask(0),
        mech_moved: MechMask(0),
    }
}

/// Verdict and ledger of one character sub-movement.
pub open spec fn spec_check_character_move(
    game: Game,
    from: usize,
    mov: Movement<NormalMove>,
    h: HistoryModel,
) -> (HistoryModel, Reason) {
    match mov {
        Movement::Single(nm) => match game.board.spec_get_field(nm.position) {
            None => (h, Some(CheckError::InvalidTargetPosition)),
            Some(to) => {
                let step1 = spec_check_character_movement(h, true);
                if step1.1 is Some {
                    step1
                } else {
                    spec_check_resources(
                        game.board.fields@[from as int].resources,
                        step1.0,
                        from,
                        to as usize,
                        nm.resources,
                    )
                }
            },
        },
        Movement::Double(n1, n2) => match (
            game.board.spec_get_field(n1.position),
            game.board.spec_get_field(n2.position),
        ) {
            (None, None) => (h, Some(CheckError::InvalidTargetPositions)),
            (None, Some(_)) => (h, Some(CheckError::InvalidFirstTargetPosition)),
            (Some(_), None) => (h, Some(CheckError::InvalidSecondTargetPosition)),
            (Some(t1), Some(t2)) => {
                let step1 = spec_check_character_movement(h, true);
                if step1.1 is Some {
                    step1
                } else {
                    let step2 = spec_check_resources(
                        game.board.fields@[from as int].resources,
                        step1.0,
                        from,
                        t1 as usize,
                        n1.resources,
                    );
                    if step2.1 is Some {
                        step2
                    } else {
                        let step3 = spec_check_character_movement(step2.0, false);
                        if step3.1 is Some {
                            step3
                        } else {
                            spec_check_resources(
                                game.board.fields@[t1 as int].resources,
                                step3.0,
                                t1 as usize,
                                t2 as usize,
                                n2.resources,
                            )
                        }
                    }
                }
            },
        },
    }
}

/// Validates one character sub-movement: resolve the target field(s),
/// one already-moved-gated hop per leg, and each leg's resource
/// transfer against the ledger.
pub fn check_character_move(
    game: &Game,
    from: usize,
    mov: &Movement<NormalMove>,
    history: &mut History,
) -> (r: Reason)
    requires
        game.wf(),
        from < game.board.fields@.len(),
    ensures
        ({
            let expect = spec_check_character_move(*game, from, *mov, old(history)@);
            final(history)@ == expect.0 && r == expect.1
        }),
{
    match mov {
        Movement::Single(nm) => match game.board.get_field(&nm.position) {
            Some(to) => {
                let step1 = check_character_movement(from, to, true, history);
                if step1.is_some() {
                    return step1;
                }
                check_resources(game, from, to, nm.resources, history)
            }
            None => Some(CheckError::InvalidTargetPosition),
        },
        Movement::Double(n1, n2) => {
            match (game.board.get_field(&n1.position), game.board.get_field(&n2.position)) {
                (None, None) => Some(CheckError::InvalidTargetPositions),
                (None, Some(_)) => Some(CheckError::InvalidFirstTargetPosition),
                (Some(_), None) => Some(CheckError::InvalidSecondTargetPosition),
                (Some(t1), Some(t2)) => {
                    let step1 = check_character_movement(from, t1, true, history);
                    if step1.is_some() {
                        return step1;
                    }
                    let step2 = check_resources(game, from, t1, n1.resources, history);
                    if step2.is_some() {
                        return step2;
                    }
                    let step3 = check_character_movement(t1, t2, false, history);
                    if step3.is_some() {
                        return step3;
                    }
                    check_resources(game, t1, t2, n2.resources, history)
                }
            }
        }
    }
}

/// Verdict and ledger of one worker sub-movement.
pub open spec fn spec_check_worker_move(
    game: Game,
    player: PlayerState,
    worker: Worker,
    mov: Movement<NormalMove>,
    h: HistoryModel,
) -> (HistoryModel, Reason) {
    match player.production.spec_get(worker) {
        None => (h, Some(CheckError::WorkerNotDeployed)),
        Some(from) => match mov {
            Movement::Single(nm) => match game.board.spec_get_field(nm.position) {
                None => (h, Some(CheckError::InvalidTargetPosition)),
                Some(to) => {
                    let step1 = spec_check_worker_movement(h, from, to as usize, worker, true);
                    if step1.1 is Some {
                        step1
                    } else {
                        spec_check_resources(
                            game.board.fields@[from as int].resources,
                            step1.0,
                            from,
                            to as usize,
                            nm.resources,
                        )
                    }
                },
            },
            Movement::Double(n1, n2) => match (
                game.board.spec_get_field(n1.position),
                game.board.spec_get_field(n2.position),
            ) {
                (None, None) => (h, Some(CheckError::InvalidTargetPositions)),
                (None, Some(_)) => (h, Some(CheckError::InvalidFirstTargetPosition)),
                (Some(_), None) => (h, Some(CheckError::InvalidSecondTargetPosition)),
                (Some(t1), Some(t2)) => {
                    let step1 = spec_check_worker_movement(h, from, t1 as usize, worker, true);
                    if step1.1 is Some {
                        step1
                    } else {
                        let step2 = spec_check_resources(
                            game.board.fields@[from as int].resources,
                            step1.0,
                            from,
                            t1 as usize,
                            n1.resources,
                        );
                        if step2.1 is Some {
                            step2
                        } else {
                            let step3 = spec_check_worker_movement(
                                step2.0,
                                t1 as usize,
                                t2 as usize,
                                worker,
                                false,
                            );
                            if step3.1 is Some {
                                step3
                            } else {
                                spec_check_resources(
                                    game.board.fields@[t1 as int].resources,
                                    step3.0,
                                    t1 as usize,
                                    t2 as usize,
                                    n2.resources,
                                )
                            }
                        }
                    }
                },
            },
        },
    }
}

/// Validates one worker sub-movement: the worker must be deployed, must
/// not have moved this turn, and each leg's resource transfer must be
/// covered by the ledger.
pub fn check_worker_move(
    game: &Game,
    player: &PlayerState,
    worker: Worker,
    mov: &Movement<NormalMove>,
    history: &mut History,
) -> (r: Reason)
    requires
        game.wf(),
        player.wf(game.board.fields@.len() as int),
    ensures
        ({
            let expect = spec_check_worker_move(*game, *player, worker, *mov, old(history)@);
            final(history)@ == expect.0 && r == expect.1
        }),
{
    let from = match player.production.get(worker) {
        Some(f) => f,
        None => {
            return Some(CheckError::WorkerNotDeployed);
        },
    };
    proof {
        assert(player.production.spec_get(worker) == Some(from));
        assert(from < game.board.fields@.len());
    }
    match mov {
        Movement::Single(nm) => match game.board.get_field(&nm.position) {
            Some(to) => {
                let step1 = check_worker_movement(from, to, worker, true, history);
                if step1.is_some() {
                    return step1;
                }
                check_resources(game, from, to, nm.resources, history)
            }
            None => Some(CheckError::InvalidTargetPosition),
        },
        Movement::Double(n1, n2) => {
            match (game.board.get_field(&n1.position), game.board.get_field(&n2.position)) {
                (None, None) => Some(CheckError::InvalidTargetPositions),
                (None, Some(_)) => Some(CheckError::InvalidFirstTargetPosition),
                (Some(_), None) => Some(CheckError::InvalidSecondTargetPosition),
                (Some(t1), Some(t2)) => {
                    let step1 = check_worker_movement(from, t1, worker, true, history);
                    if step1.is_some() {
                        return step1;
                    }
                    let step2 = check_resources(game, from, t1, n1.resources, history);
                    if step2.is_some() {
                        return step2;
                    }
                    let step3 = check_worker_movement(t1, t2, worker, false, history);
                    if step3.is_some() {
                        return step3;
                    }
                    check_resources(game, t1, t2, n2.resources, history)
                }
            }
        }
    }
}

/// Verdict and ledger of one mech sub-movement.
pub open spec fn spec_check_mech_move(
    game: Game,
    player: PlayerState,
    mech: Mech,
    mov: Movement<MechMove>,
    h: HistoryModel,
) -> (HistoryModel, Reason) {
    match player.mechs.spec_get(mech) {
        None => (h, Some(CheckError::MechNotDeployed)),
        Some(from) => match mov {
            Movement::Single(mm) => match game.board.spec_get_field(mm.position) {
                None => (h, Some(CheckError::InvalidTargetPosition)),
                Some(to) => {
                    let step1 = spec_check_mech_movement(h, mech, true);
                    if step1.1 is Some {
                        step1
                    } else {
                        let step2 = spec_check_resources(
                            game.board.fields@[from as int].resources,
                            step1.0,
                            from,
                            to as usize,
                            mm.resources,
                        );
                        if step2.1 is Some {
                            step2
                        } else {
                            spec_check_carry_workers(
                                player,
                                step2.0,
                                from,
                                to as usize,
                                mm.workers,
                            )
                        }
                    }
                },
            },
            Movement::Double(m1, m2) => match (
                game.board.spec_get_field(m1.position),
                game.board.spec_get_field(m2.position),
            ) {
                (None, None) => (h, Some(CheckError::InvalidTargetPositions)),
                (None, Some(_)) => (h, Some(CheckError::InvalidFirstTargetPosition)),
                (Some(_), None) => (h, Some(CheckError::InvalidSecondTargetPosition)),
                (Some(t1), Some(t2)) => {
                    let step1 = spec_check_mech_movement(h, mech, true);
                    if step1.1 is Some {
                        step1
                    } else {
                        let step2 = spec_check_resources(
                            game.board.fields@[from as int].resources,
                            step1.0,
                            from,
                            t1 as usize,
                            m1.resources,
                        );
                        if step2.1 is Some {
                            step2
                        } else {
                            let step3 = spec_check_carry_workers(
                                player,
                                step2.0,
                                from,
                                t1 as usize,
                                m1.workers,
                            );
                            if step3.1 is Some {
                                step3
                            } else {
                                let step4 = spec_check_mech_movement(step3.0, mech, false);
                                if step4.1 is Some {
                                    step4
                                } else {
                                    let step5 = spec_check_resources(
                                        game.board.fields@[t1 as int].resources,
                                        step4.0,
                                        t1 as usize,
                                        t2 as usize,
                                        m2.resources,
                                    );
                                    if step5.1 is Some {
                                        step5
                                    } else {
                                        spec_check_carry_workers(
                                            player,
                                            step5.0,
                                            t1 as usize,
                                            t2 as usize,
                                            m2.workers,
                                        )
                                    }
                                }
                            }
                        }
                    }
                },
            },
        },
    }
}

/// Validates one mech sub-movement: the mech must be deployed and not
/// already moved; each leg checks its resource transfer and that the
/// carried workers are staged at the leg's source and absent from its
/// target, all against the ledger.
pub fn check_mech_move(
    game: &Game,
    player: &PlayerState,
    mech: Mech,
    mov: &Movement<MechMove>,
    history: &mut History,
) -> (r: Reason)
    requires
        game.wf(),
        player.wf(game.board.fields@.len() as int),
    ensures
        ({
            let expect = spec_check_mech_move(*game, *player, mech, *mov, old(history)@);
            final(history)@ == expect.0 && r == expect.1
        }),
{
    let from = match player.mechs.get(mech) {
        Some(f) => f,
        None => {
            return Some(CheckError::MechNotDeployed);
        },
    };
    proof {
        assert(player.mechs.spec_get(mech) == Some(from));
        assert(from < game.board.fields@.len());
    }
    match mov {
        Movement::Single(mm) => match game.board.get_field(&mm.position) {
            Some(to) => {
                let step1 = check_mech_movement(from, to, mech, true, history);
                if step1.is_some() {
                    return step1;
                }
                let step2 = check_resources(game, from, to, mm.resources, history);
                if step2.is_some() {
                    return step2;
                }
                check_carry_workers(player, from, to, mm.workers, history)
            }
            None => Some(CheckError::InvalidTargetPosition),
        },
        Movement::Double(m1, m2) => {
            match (game.board.get_field(&m1.position), game.board.get_field(&m2.position)) {
                (None, None) => Some(CheckError::InvalidTargetPositions),
                (None, Some(_)) => Some(CheckError::InvalidFirstTargetPosition),
                (Some(_), None) => Some(CheckError::InvalidSecondTargetPosition),
                (Some(t1), Some(t2)) => {
                    let step1 = check_mech_movement(from, t1, mech, true, history);
                    if step1.is_some() {
                        return step1;
                    }
                    let step2 = check_resources(game, from, t1, m1.resources, history);
                    if step2.is_some() {
                        return step2;
                    }
                    let step3 = check_carry_workers(player, from, t1, m1.workers, history);
                    if step3.is_some() {
                        return step3;
                    }
                    let step4 = check_mech_movement(t1, t2, mech, false, history);
                    if step4.is_some() {
                        return step4;
                    }
                    let step5 = check_resources(game, t1, t2, m2.resources, history);
                    if step5.is_some() {
                        return step5;
                    }
                    check_carry_workers(player, t1, t2, m2.workers, history)
                }
            }
        }
    }
}

/// Verdict and ledger of one sub-movement, dispatched on the unit kind.
pub open spec fn spec_check_unit_movement(
    game: Game,
    player: PlayerState,
    mov: UnitMovement,
    h: HistoryModel,
) -> (HistoryModel, Reason) {
    match mov {
        UnitMovement::Character(m) => spec_check_character_move(
            game,
            player.character.location,
            m,
            h,
        ),
        UnitMovement::Worker(worker, m) => spec_check_worker_move(game, player, worker, m, h),
        UnitMovement::Mech(mech, m) => spec_check_mech_move(game, player, mech, m, h),
    }
}

/// Verdict and ledger of a chain of sub-movements: validated in order,
/// stopping at the first rejection.
pub open spec fn spec_check_move(
    game: Game,
    player: PlayerState,
    movs: Seq<UnitMovement>,
    h: HistoryModel,
) -> (HistoryModel, Reason)
    decreases movs.len(),
{
    if movs.len() == 0 {
        (h, None)
    } else {
        let step = spec_check_unit_movement(game, player, movs[0], h);
        if step.1 is Some {
            step
        } else {
            spec_check_move(game, player, movs.drop_first(), step.0)
        }
    }
}

/// Validates a chain of sub-movements in order against one shared
/// ledger, stopping at the first rejection.
pub fn check_move(
    game: &Game,
    player: &PlayerState,
    movement: &Vec<UnitMovement>,
    history: &mut History,
) -> (r: Reason)
    requires
        game.wf(),
        player.wf(game.board.fields@.len() as int),
    ensures
        ({
            let expect = spec_check_move(*game, *player, movement@, old(history)@);
            final(history)@ == expect.0 && r == expect.1
        }),
{
    proof {
        assert(movement@.skip(0) =~= movement@);
    }
    let mut i: usize = 0;
    while i < movement.len()
        invariant
            game.wf(),
            player.wf(game.board.fields@.len() as int),
            0 <= i <= movement@.len(),
            spec_check_move(*game, *player, movement@, old(history)@) == spec_check_move(
                *game,
                *player,
                movement@.skip(i as int),
                history@,
            ),
        decreases movement@.len() - i,
    {
        proof {
            assert(movement@.skip(i as int)[0] == movement@[i as int]);
            assert(movement@.skip(i as int).drop_first() =~= movement@.skip(i + 1));
        }
        let mov = movement[i];
        let step = match mov {
            UnitMovement::Character(m) => check_character_move(
                game,
                player.character.location,
                &m,
                history,
            ),
            UnitMovement::Worker(worker, m) => check_worker_move(game, player, worker, &m, history),
            UnitMovement::Mech(mech, m) => check_mech_move(game, player, mech, &m, history),
        };
        if step.is_some() {
            return step;
        }
        i = i + 1;
    }
    proof {
        assert(movement@.skip(movement@.len() as int) =~= Seq::<UnitMovement>::empty());
    }
    None
}

/// Can the tile be produced on?
pub open spec fn spec_is_producible(tile: Tile) -> bool {
    match tile {
        Tile::Farm => true,
        Tile::Mountain => true,
        Tile::Tundra => true,
        Tile::Village => true,
        Tile::Woods => true,
        _ => false,
    }
}

fn is_producible(tile: Tile) -> (r: bool)
    ensures
        r == spec_is_producible(tile),
{
    match tile {
        Tile::Farm => true,
        Tile::Mountain => true,
        Tile::Tundra => true,
        Tile::Village => true,
        Tile::Woods => true,
        _ => false,
    }
}

fn contains_index(v: &Vec<usize>, x: usize) -> (r: bool)
    ensures
        r == v@.contains(x),
{
    let mut i: usize = 0;
    while i < v.len()
        invariant
            0 <= i <= v@.len(),
            forall|k: int| 0 <= k < i ==> v@[k] != x,
        decreases v@.len() - i,
    {
        if v[i] == x {
            return true;
        }
        i = i + 1;
    }
    false
}

/// Verdict of a produce request: every named worker deployed, on a
/// producible tile, and no field used twice.
pub open spec fn spec_check_produce(
    game: Game,
    player: PlayerState,
    workers: Seq<Worker>,
    used: Seq<usize>,
) -> Reason
    decreases workers.len(),
{
    if workers.len() == 0 {
        None
    } else {
        match player.production.spec_get(workers[0]) {
            None => Some(CheckError::ProduceWorkerNotDeployed),
            Some(field) => if !spec_is_producible(game.board.fields@[field as int].tile) {
                Some(CheckError::UnproducibleTile)
            } else if used.contains(field) {
                Some(CheckError::DuplicateProduceTile)
            } else {
                spec_check_produce(game, player, workers.drop_first(), used.push(field))
            },
        }
    }
}

/// Validates a produce request: each worker must be deployed on a
/// producible tile and no tile may produce twice.
pub fn check_produce(game: &Game, player: &PlayerState, prod: &Vec<Worker>) -> (r: Reason)
    requires
        game.wf(),
        player.wf(game.board.fields@.len() as int),
    ensures
        r == spec_check_produce(*game, *player, prod@, Seq::empty()),
{
    let mut production: Vec<usize> = Vec::new();
    proof {
        assert(prod@.skip(0) =~= prod@);
        assert(production@ =~= Seq::<usize>::empty());
    }
    let mut i: usize = 0;
    while i < prod.len()
        invariant
            game.wf(),
            player.wf(game.board.fields@.len() as int),
            0 <= i <= prod@.len(),
            spec_check_produce(*game, *player, prod@, Seq::empty()) == spec_check_produce(
                *game,
                *player,
                prod@.skip(i as int),
                production@,
            ),
        decreases prod@.len() - i,
    {
        proof {
            assert(prod@.skip(i as int)[0] == prod@[i as int]);
            assert(prod@.skip(i as int).drop_first() =~= prod@.skip(i + 1));
        }
        let worker = prod[i];
        match player.production.get(worker) {
            Some(field) => {
                let tile = game.board.fields[field].tile;
                if !is_producible(tile) {
                    return Some(CheckError::UnproducibleTile);
                }
                if contains_index(&production, field) {
                    return Some(CheckError::DuplicateProduceTile);
                }
                production.push(field);
            }
            None => {
                return Some(CheckError::ProduceWorkerNotDeployed);
            }
        }
        i = i + 1;
    }
    proof {
        assert(prod@.skip(prod@.len() as int) =~= Seq::<Worker>::empty());
    }
    None
}

/// Verdict of a trade at one field: the acting player must control it
/// and it must hold the requested amount.
pub open spec fn spec_check_field_for_trade(
    game: Game,
    player: int,
    field: usize,
    resource: Resource,
    amount: u32,
) -> Reason {
    match game.spec_get_player_control(field) {
        None => Some(CheckError::FieldNotControlled),
        Some(p) => if p != player {
            Some(CheckError::FieldControlledByEnemy)
        } else if game.board.fields@[field as int].resources.spec_get(resource) < amount {
            Some(CheckError::NotEnoughResourcesToTrade)
        } else {
            None
        },
    }
}

/// Validates a trade at one field: the acting player must control the
/// field (no control and enemy control both reject) and the field must
/// hold the requested amount.
pub fn check_field_for_trade(
    game: &Game,
    player: usize,
    field: usize,
    resource: &Resource,
    amount: u32,
) -> (r: Reason)
    requires
        game.wf(),
        field < game.board.fields@.len(),
    ensures
        r == spec_check_field_for_trade(*game, player as int, field, *resource, amount),
{
    let control_player = game.get_player_control(field);
    match control_player {
        None => Some(CheckError::FieldNotControlled),
        Some(p) => {
            if p != player {
                Some(CheckError::FieldControlledByEnemy)
            } else if !game.board.fields[field].resources.has(resource, amount) {
                Some(CheckError::NotEnoughResourcesToTrade)
            } else {
                None
            }
        }
    }
}

/// Verdict of a one-unit trade.
pub open spec fn spec_check_trade1(game: Game, unit: TradeUnit) -> Reason {
    let player_idx = game.spec_active_index();
    let player = game.players@[player_idx];
    match player.spec_get_unit_field(unit.unit) {
        None => Some(CheckError::UnitNotDeployed),
        Some(f) => spec_check_field_for_trade(game, player_idx, f, unit.from, 1),
    }
}

/// Validates a one-unit trade at the field the unit occupies.
pub fn check_trade1(game: &Game, unit: &TradeUnit) -> (r: Reason)
    requires
        game.wf(),
    ensures
        r == spec_check_trade1(*game, *unit),
{
    let idx = game.get_active_player();
    let player = &game.players[idx];
    proof {
        assert(game.players@[idx as int].wf(game.board.fields@.len() as int));
        assert(forall|w: Worker| 0 <= #[trigger] crate::game::production::spec_worker_index(w)
            < 8);
        assert(forall|m: Mech| 0 <= #[trigger] crate::game::mechs::spec_mech_index(m) < 4);
    }
    match player.get_unit_field(&unit.unit) {
        Some(f) => {
            proof {
                assert(f < game.board.fields@.len());
            }
            check_field_for_trade(game, idx, f, &unit.from, 1)
        },
        None => Some(CheckError::UnitNotDeployed),
    }
}

/// Verdict of a two-unit trade: two trades on the same field for the
/// same resource combine into one doubled check.
pub open spec fn spec_check_trade2(game: Game, u1: TradeUnit, u2: TradeUnit) -> Reason {
    let player_idx = game.spec_active_index();
    let player = game.players@[player_idx];
    match (player.spec_get_unit_field(u1.unit), player.spec_get_unit_field(u2.unit)) {
        (None, None) => Some(CheckError::UnitsNotDeployed),
        (None, Some(_)) => Some(CheckError::Unit1NotDeployed),
        (Some(_), None) => Some(CheckError::Unit2NotDeployed),
        (Some(f1), Some(f2)) => if f1 == f2 && u1.from == u2.from {
            spec_check_field_for_trade(game, player_idx, f1, u1.from, 2)
        } else {
            match spec_check_field_for_trade(game, player_idx, f1, u1.from, 1) {
                Some(e) => Some(e),
                None => spec_check_field_for_trade(game, player_idx, f2, u2.from, 1),
            }
        },
    }
}

/// Validates a two-unit trade; two trades of the same resource on one
/// field are checked once with a doubled amount.
pub fn check_trade2(game: &Game, u1: &TradeUnit, u2: &TradeUnit) -> (r: Reason)
    requires
        game.wf(),
    ensures
        r == spec_check_trade2(*game, *u1, *u2),
{
    let idx = game.get_active_player();
    let player = &game.players[idx];
    proof {
        assert(game.players@[idx as int].wf(game.board.fields@.len() as int));
        assert(forall|w: Worker| 0 <= #[trigger] crate::game::production::spec_worker_index(w)
            < 8);
        assert(forall|m: Mech| 0 <= #[trigger] crate::game::mechs::spec_mech_index(m) < 4);
    }
    let field1 = player.get_unit_field(&u1.unit);
    let field2 = player.get_unit_field(&u2.unit);
    match (field1, field2) {
        (None, None) => Some(CheckError::UnitsNotDeployed),
        (None, Some(_)) => Some(CheckError::Unit1NotDeployed),
        (Some(_), None) => Some(CheckError::Unit2NotDeployed),
        (Some(f1), Some(f2)) => {
            if f1 == f2 && u1.from == u2.from {
                check_field_for_trade(game, idx, f1, &u1.from, 2)
            } else {
                match check_field_for_trade(game, idx, f1, &u1.from, 1) {
                    Some(e) => Some(e),
                    None => check_field_for_trade(game, idx, f2, &u2.from, 1),
                }
            }
        }
    }
}

/// The checker's verdict on a whole primary action, from a fresh ledger.
pub open spec fn spec_check_primary(game: Game, primary: Primary) -> Reason {
    let player = game.players@[game.spec_active_index()];
    match primary {
        Primary::Move(Move::Move1(m1)) => spec_check_move(
            game,
            player,
            seq![m1],
            spec_empty_history(),
        ).1,
        Primary::Move(Move::Move2(m1, m2)) => spec_check_move(
            game,
            player,
            seq![m1, m2],
            spec_empty_history(),
        ).1,
        Primary::Move(Move::Move3(m1, m2, m3)) => if !player.upgrades.move_evolved {
            Some(CheckError::MoveNotEvolved)
        } else {
            spec_check_move(game, player, seq![m1, m2, m3], spec_empty_history()).1
        },
        Primary::Tax => None,
        Primary::Trade(trade) => if player.coins < 1 {
            Some(CheckError::NotEnoughCoinsToTrade)
        } else {
            match trade {
                Trade::Trade1(u) => spec_check_trade1(game, u),
                Trade::Trade2(u1, u2) => spec_check_trade2(game, u1, u2),
            }
        },
        Primary::Promote => if player.coins < 1 {
            Some(CheckError::NotEnoughCoinsToPromote)
        } else {
            None
        },
        Primary::Bolster => if player.coins < 1 {
            Some(CheckError::NotEnoughCoinsToBolster)
        } else {
            None
        },
        Primary::Enforce => if player.coins < 1 {
            Some(CheckError::NotEnoughCoinsToEnforce)
        } else {
            None
        },
        Primary::Produce(Produce::Produce1(w1)) => spec_check_produce(
            game,
            player,
            seq![w1],
            Seq::empty(),
        ),
        Primary::Produce(Produce::Produce2(w1, w2)) => spec_check_produce(
            game,
            player,
            seq![w1, w2],
            Seq::empty(),
        ),
        Primary::Produce(Produce::Produce3(w1, w2, w3)) => if !player.upgrades.produce_evolved {
            Some(CheckError::ProduceNotEvolved)
        } else {
            spec_check_produce(game, player, seq![w1, w2, w3], Seq::empty())
        },
    }
}

/// Validates a proposed primary action for the active player against a
/// fresh ledger. Returns `None` when the action is legal, otherwise the
/// specific rejection; the game state is never touched.
pub fn check_primary(game: &Game, primary: &Primary) -> (r: Reason)
    requires
        game.wf(),
    ensures
        r == spec_check_primary(*game, *primary),
{
    let idx = game.get_active_player();
    let player = &game.players[idx];
    let mut history = History::new();
    proof {
        assert(history@.worker =~= spec_empty_history().worker);
        assert(history@.resource =~= spec_empty_history().resource);
        assert(history@ == spec_empty_history());
    }
    match primary {
        Primary::Move(Move::Move1(m1)) => {
            let mut movements: Vec<UnitMovement> = Vec::new();
            movements.push(*m1);
            proof {
                assert(movements@ =~= seq![*m1]);
            }
            check_move(game, player, &movements, &mut history)
        }
        Primary::Move(Move::Move2(m1, m2)) => {
            let mut movements: Vec<UnitMovement> = Vec::new();
            movements.push(*m1);
            movements.push(*m2);
            proof {
                assert(movements@ =~= seq![*m1, *m2]);
            }
            check_move(game, player, &movements, &mut history)
        }
        Primary::Move(Move::Move3(m1, m2, m3)) => {
            if !player.upgrades.move_evolved {
                return Some(CheckError::MoveNotEvolved);
            }
            let mut movements: Vec<UnitMovement> = Vec::new();
            movements.push(*m1);
            movements.push(*m2);
            movements.push(*m3);
            proof {
                assert(movements@ =~= seq![*m1, *m2, *m3]);
            }
            check_move(game, player, &movements, &mut history)
        }
        Primary::Tax => None,
        Primary::Trade(trade) => {
            if player.coins < 1 {
                return Some(CheckError::NotEnoughCoinsToTrade);
            }
            match trade {
                Trade::Trade1(u) => check_trade1(game, u),
                Trade::Trade2(u1, u2) => check_trade2(game, u1, u2),
            }
        }
        Primary::Promote => {
            if player.coins < 1 {
                Some(CheckError::NotEnoughCoinsToPromote)
            } else {
                None
            }
        }
        Primary::Bolster => {
            if player.coins < 1 {
                Some(CheckError::NotEnoughCoinsToBolster)
            } else {
                None
            }
        }
        Primary::Enforce => {
            if player.coins < 1 {
                Some(CheckError::NotEnoughCoinsToEnforce)
            } else {
                None
            }
        }
        Primary::Produce(Produce::Produce1(w1)) => {
            let mut workers: Vec<Worker> = Vec::new();
            workers.push(*w1);
            proof {
                assert(workers@ =~= seq![*w1]);
            }
            check_produce(game, player, &workers)
        }
        Primary::Produce(Produce::Produce2(w1, w2)) => {
            let mut workers: Vec<Worker> = Vec::new();
            workers.push(*w1);
            workers.push(*w2);
            proof {
                assert(workers@ =~= seq![*w1, *w2]);
            }
            check_produce(game, player, &workers)
        }
        Primary::Produce(Produce::Produce3(w1, w2, w3)) => {
            if !player.upgrades.produce_evolved {
                return Some(CheckError::ProduceNotEvolved);
            }
            let mut workers: Vec<Worker> = Vec::new();
            workers.push(*w1);
            workers.push(*w2);
            workers.push(*w3);
            proof {
                assert(workers@ =~= seq![*w1, *w2, *w3]);
            }
            check_produce(game, player, &workers)
        }
    }
}

/// Idempotent rejection: checking one game and descriptor twice gives
/// equal outcomes, because validation depends on nothing but its
/// arguments.
pub proof fn lemma_rejection_idempotent(game: Game, primary: Primary, first: Reason, second: Reason)
    requires
        first == spec_check_primary(game, primary),
        second == spec_check_primary(game, primary),
    ensures
        first == second,
{
}

/// Contribution of one recorded transfer to a field's balance of one
/// resource: inflow positive, outflow negative, self-moves ignored.
pub open spec fn spec_contrib(e: (usize, usize, ResourceField), f: usize, res: Resource) -> int {
    if e.0 == e.1 {
        0
    } else {
        (if e.1 == f {
            e.2.spec_get(res) as int
        } else {
            0int
        }) - (if e.0 == f {
            e.2.spec_get(res) as int
        } else {
            0int
        })
    }
}

/// Net recorded flow of one resource into one field over a ledger.
pub open spec fn spec_net(
    h: Seq<(usize, usize, ResourceField)>,
    f: usize,
    res: Resource,
) -> int
    decreases h.len(),
{
    if h.len() == 0 {
        0
    } else {
        spec_net(h.drop_last(), f, res) + spec_contrib(h.last(), f, res)
    }
}

/// Net recorded flow of one resource summed over the fields `0..n`.
pub open spec fn spec_net_sum(h: Seq<(usize, usize, ResourceField)>, n: int, res: Resource) -> int
    decreases n,
{
    if n <= 0 {
        0
    } else {
        spec_net_sum(h, n - 1, res) + spec_net(h, (n - 1) as usize, res)
    }
}

/// The empty ledger has no flow anywhere.
proof fn lemma_net_sum_empty(n: int, res: Resource)
    ensures
        spec_net_sum(Seq::<(usize, usize, ResourceField)>::empty(), n, res) == 0,
    decreases n,
{
    if n > 0 {
        lemma_net_sum_empty(n - 1, res);
    }
}

/// One transfer's contribution summed over the fields `0..n`.
pub open spec fn spec_contrib_sum(e: (usize, usize, ResourceField), n: int, res: Resource) -> int
    decreases n,
{
    if n <= 0 {
        0
    } else {
        spec_contrib_sum(e, n - 1, res) + spec_contrib(e, (n - 1) as usize, res)
    }
}

/// Splitting off the last transfer splits the summed flow.
proof fn lemma_net_sum_decompose(h: Seq<(usize, usize, ResourceField)>, n: int, res: Resource)
    requires
        h.len() > 0,
        n <= usize::MAX,
    ensures
        spec_net_sum(h, n, res) == spec_net_sum(h.drop_last(), n, res) + spec_contrib_sum(
            h.last(),
            n,
            res,
        ),
    decreases n,
{
    if n > 0 {
        lemma_net_sum_decompose(h, n - 1, res);
    }
}

/// Over fields covering both endpoints, one transfer's summed
/// contribution cancels out.
proof fn lemma_contrib_sum_zero(e: (usize, usize, ResourceField), n: int, res: Resource)
    requires
        n <= usize::MAX,
    ensures
        spec_contrib_sum(e, n, res) == (if (e.1 as int) < n && e.0 != e.1 {
            e.2.spec_get(res) as int
        } else {
            0int
        }) - (if (e.0 as int) < n && e.0 != e.1 {
            e.2.spec_get(res) as int
        } else {
            0int
        }),
    decreases n,
{
    if n > 0 {
        lemma_contrib_sum_zero(e, n - 1, res);
    }
}

/// Resource conservation of validated movement: the ledger only
/// relocates resources. Over any ledger whose endpoints lie among the
/// fields `0..n`, the net recorded flow of each resource, summed over
/// all fields, is zero: resources never appear or vanish during a
/// composite move.
pub proof fn lemma_ledger_conserves_resources(
    h: Seq<(usize, usize, ResourceField)>,
    n: int,
    res: Resource,
)
    requires
        n <= usize::MAX,
        forall|k: int| 0 <= k < h.len() ==> ((#[trigger] h[k]).0 as int) < n && (h[k].1 as int) < n,
    ensures
        spec_net_sum(h, n, res) == 0,
    decreases h.len(),
{
    if h.len() == 0 {
        assert(h =~= Seq::<(usize, usize, ResourceField)>::empty());
        lemma_net_sum_empty(n, res);
    } else {
        let h0 = h.drop_last();
        assert(forall|k: int| 0 <= k < h0.len() ==> h0[k] == h[k]);
        lemma_ledger_conserves_resources(h0, n, res);
        lemma_net_sum_decompose(h, n, res);
        assert(h.last() == h[h.len() - 1]);
        lemma_contrib_sum_zero(h.last(), n, res);
        assert((h.last().0 as int) < n && (h.last().1 as int) < n);
        assert(spec_contrib_sum(h.last(), n, res) == 0);
        assert(spec_net_sum(h, n, res) == spec_net_sum(h0, n, res) + spec_contrib_sum(
            h.last(),
            n,
            res,
        ));
    }
}

/// Does the ledger already record a move of this unit?
pub open spec fn spec_mover_flag(h: HistoryModel, u: UnitMovement) -> bool {
    match u {
        UnitMovement::Character(_) => h.character_moved,
        UnitMovement::Worker(w, _) => h.worker_moved.spec_contains_worker(w),
        UnitMovement::Mech(m, _) => h.mech_moved.spec_contains_mech(m),
    }
}

/// Do the two sub-movements move the same unit?
pub open spec fn spec_same_mover(u: UnitMovement, v: UnitMovement) -> bool {
    match (u, v) {
        (UnitMovement::Character(_), UnitMovement::Character(_)) => true,
        (UnitMovement::Worker(w1, _), UnitMovement::Worker(w2, _)) => w1 == w2,
        (UnitMovement::Mech(m1, _), UnitMovement::Mech(m2, _)) => m1 == m2,
        _ => false,
    }
}

/// One accepted sub-movement marks its mover as moved, never unmarks
/// anyone, and is rejected when its mover was already marked.
#[verifier::rlimit(100)]
#[verifier::spinoff_prover]
proof fn lemma_step_flags(game: Game, player: PlayerState, u: UnitMovement, h: HistoryModel)
    ensures
        ({
            let st = spec_check_unit_movement(game, player, u, h);
            &&& (st.1 is None ==> spec_mover_flag(st.0, u))
            &&& (st.1 is None ==> !spec_mover_flag(h, u))
            &&& forall|v: UnitMovement|
                spec_mover_flag(h, v) ==> spec_mover_flag(#[trigger] spec_check_unit_movement(
                    game,
                    player,
                    u,
                    h,
                ).0, v)
        }),
{
    let st = spec_check_unit_movement(game, player, u, h);
    assert forall|v: UnitMovement| spec_mover_flag(h, v) implies spec_mover_flag(st.0, v) by {
        match v {
            UnitMovement::Character(_) => {}
            UnitMovement::Worker(w, _) => {
                lemma_union_contains_all(spec_worker_bit(w));
            }
            UnitMovement::Mech(m, _) => {
                lemma_union_contains_all(spec_mech_bit(m));
            }
        }
    }
    if st.1 is None {
        match u {
            UnitMovement::Character(_) => {}
            UnitMovement::Worker(w, _) => {
                lemma_union_contains_all(spec_worker_bit(w));
                lemma_worker_bits(w, w);
            }
            UnitMovement::Mech(m, _) => {
                lemma_union_contains_all(spec_mech_bit(m));
                lemma_mech_bits(m, m);
            }
        }
    }
}

/// Union facts over every mask, specialised to one bit of interest.
proof fn lemma_union_contains_all(c: u8)
    ensures
        forall|a: u8, b: u8| a & c == c ==> #[trigger] (a | b) & c == c,
        forall|a: u8, b: u8| (#[trigger] (a | b)) & b == b,
{
    assert forall|a: u8, b: u8| a & c == c implies #[trigger] (a | b) & c == c by {
        lemma_union_contains(a, b, c);
    }
    assert forall|a: u8, b: u8| (#[trigger] (a | b)) & b == b by {
        lemma_union_contains(a, b, c);
    }
}

/// A marked mover stays marked through a whole accepted or rejected
/// chain.
proof fn lemma_chain_flags_monotone(
    game: Game,
    player: PlayerState,
    movs: Seq<UnitMovement>,
    h: HistoryModel,
    v: UnitMovement,
)
    requires
        spec_mover_flag(h, v),
    ensures
        spec_mover_flag(spec_check_move(game, player, movs, h).0, v),
    decreases movs.len(),
{
    if movs.len() > 0 {
        let st = spec_check_unit_movement(game, player, movs[0], h);
        lemma_step_flags(game, player, movs[0], h);
        if st.1 is None {
            lemma_chain_flags_monotone(game, player, movs.drop_first(), st.0, v);
        }
    }
}

/// A unit marked as moved never moves again in an accepted chain.
proof fn lemma_chain_rejects_marked(
    game: Game,
    player: PlayerState,
    movs: Seq<UnitMovement>,
    h: HistoryModel,
    u: UnitMovement,
)
    requires
        spec_mover_flag(h, u),
        spec_check_move(game, player, movs, h).1 is None,
    ensures
        forall|k: int| 0 <= k < movs.len() ==> !spec_same_mover(u, movs[k]),
    decreases movs.len(),
{
    if movs.len() > 0 {
        let st = spec_check_unit_movement(game, player, movs[0], h);
        lemma_step_flags(game, player, movs[0], h);
        assert(st.1 is None);
        if spec_same_mover(u, movs[0]) {
            assert(spec_mover_flag(h, movs[0]));
            assert(false);
        }
        assert(spec_mover_flag(st.0, u));
        lemma_chain_rejects_marked(game, player, movs.drop_first(), st.0, u);
        assert forall|k: int| 0 <= k < movs.len() implies !spec_same_mover(u, movs[k]) by {
            if k > 0 {
                assert(movs[k] == movs.drop_first()[k - 1]);
            }
        }
    }
}

/// No double use: within one validated composite move, no worker or
/// mech moves in two sub-steps and the character does not move twice.
pub proof fn lemma_no_double_use(
    game: Game,
    player: PlayerState,
    movs: Seq<UnitMovement>,
    h: HistoryModel,
)
    requires
        spec_check_move(game, player, movs, h).1 is None,
    ensures
        forall|i: int, j: int|
            0 <= i < j < movs.len() ==> !spec_same_mover(movs[i], movs[j]),
    decreases movs.len(),
{
    if movs.len() > 0 {
        let st = spec_check_unit_movement(game, player, movs[0], h);
        lemma_step_flags(game, player, movs[0], h);
        assert(st.1 is None);
        let rest = movs.drop_first();
        lemma_chain_rejects_marked(game, player, rest, st.0, movs[0]);
        lemma_no_double_use(game, player, rest, st.0);
        assert forall|i: int, j: int|
            0 <= i < j < movs.len() implies !spec_same_mover(movs[i], movs[j]) by {
            if i == 0 {
                assert(movs[j] == rest[j - 1]);
            } else {
                assert(movs[i] == rest[i - 1]);
                assert(movs[j] == rest[j - 1]);
            }
        }
    }
}

} // verus!
