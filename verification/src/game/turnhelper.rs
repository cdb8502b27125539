use vstd::prelude::*;

use crate::game_state::production::ProductionState;
use crate::game_state::PlayerState;
use crate::template::SecondaryAction;
use crate::turn::turnmask::{Move, Movement, Primary, Produce, Tile};

verus! {

/// One worker available on each producible tile kind: the reference
/// production pattern a Produce request is checked against.
pub open spec fn spec_produce_state() -> ProductionState {
    ProductionState::spec_new(
        seq![Tile::Woods, Tile::Mountain, Tile::Tundra, Tile::Farm, Tile::Village],
    )
}

/// The reference production pattern used to validate Produce tiles: one
/// worker per producible tile kind.
pub fn produce_state() -> (r: ProductionState)
    ensures
        r == spec_produce_state(),
        r.wf(),
{
    let mut tiles: Vec<Tile> = Vec::new();
    tiles.push(Tile::Woods);
    tiles.push(Tile::Mountain);
    tiles.push(Tile::Tundra);
    tiles.push(Tile::Farm);
    tiles.push(Tile::Village);
    proof {
        assert(tiles@ =~= seq![Tile::Woods, Tile::Mountain, Tile::Tundra, Tile::Farm, Tile::Village]);
    }
    ProductionState::new(tiles)
}

/// Do the listed tiles stay within what `state` offers, counting
/// repetitions?
pub open spec fn spec_check_movement(state: ProductionState, tiles: Seq<Tile>) -> bool {
    let needed = ProductionState::spec_new(tiles);
    &&& state.spec_get(Tile::Woods) >= needed.spec_get(Tile::Woods)
    &&& state.spec_get(Tile::Mountain) >= needed.spec_get(Tile::Mountain)
    &&& state.spec_get(Tile::Tundra) >= needed.spec_get(Tile::Tundra)
    &&& state.spec_get(Tile::Farm) >= needed.spec_get(Tile::Farm)
    &&& state.spec_get(Tile::Village) >= needed.spec_get(Tile::Village)
}

/// Checks that the tiles are covered by the production state, counting
/// repetitions.
pub fn check_movement(state: &ProductionState, tiles: Vec<Tile>) -> (r: bool)
    ensures
        r == spec_check_movement(*state, tiles@),
{
    let mut needed = ProductionState::new(Vec::new());
    let ghost empty: Seq<Tile> = Seq::empty();
    proof {
        assert(Seq::<Tile>::empty() =~= empty);
    }

    let mut i: usize = 0;
    while i < tiles.len()
        invariant
            0 <= i <= tiles@.len(),
            needed == ProductionState::spec_new(tiles@.take(i as int)),
            needed.wf(),
        decreases tiles@.len() - i,
    {
        proof {
            assert(tiles@.take(i + 1).drop_last() =~= tiles@.take(i as int));
        }
        needed.add(&tiles[i], 1);
        i = i + 1;
    }
    proof {
        assert(tiles@.take(tiles@.len() as int) =~= tiles@);
    }

    state.get(&Tile::Woods) >= needed.get(&Tile::Woods) && state.get(&Tile::Mountain)
        >= needed.get(&Tile::Mountain) && state.get(&Tile::Tundra) >= needed.get(&Tile::Tundra)
        && state.get(&Tile::Farm) >= needed.get(&Tile::Farm) && state.get(&Tile::Village)
        >= needed.get(&Tile::Village)
}

/// Does the player have a worker to move away from the tile?
pub open spec fn spec_check_move_from(state: PlayerState, from: Tile) -> bool {
    state.production.spec_get(from) >= 1
}

pub fn check_move_from(state: &PlayerState, from: &Tile) -> (r: bool)
    ensures
        r == spec_check_move_from(*state, *from),
{
    state.production.get(from) >= 1
}

/// Is a primary action legal in the given state?
pub open spec fn spec_check_primary(state: PlayerState, primary: Primary) -> bool {
    match primary {
        Primary::Move(Move::Move1(m1)) => spec_check_movement(state.production, seq![m1.0]),
        Primary::Move(Move::Move2(m1, m2)) => spec_check_movement(
            state.production,
            seq![m1.0, m2.0],
        ),
        Primary::Move(Move::Move3(m1, m2, m3)) => state.upgrades.move_evolved
            && spec_check_movement(state.production, seq![m1.0, m2.0, m3.0]),
        Primary::Tax => true,
        Primary::Trade(_, _) => state.coins >= 1,
        Primary::Promote => state.coins >= 1,
        Primary::Bolster => state.coins >= 1,
        Primary::Enforce => state.coins >= 1,
        Primary::Produce(Produce::Produce1(t1)) => state.spec_can_produce()
            && spec_check_movement(spec_produce_state(), seq![t1]),
        Primary::Produce(Produce::Produce2(t1, t2)) => state.spec_can_produce()
            && spec_check_movement(spec_produce_state(), seq![t1, t2]),
        Primary::Produce(Produce::Produce3(t1, t2, t3)) => state.spec_can_produce()
            && state.upgrades.produce_evolved && spec_check_movement(
            spec_produce_state(),
            seq![t1, t2, t3],
        ),
    }
}

/// Validates a primary action: Move within the worker counts (three
/// relocations only when evolved), the coin-spending actions with a coin
/// at hand, Produce behind the tiered affordability gate with valid,
/// non-repeating tiles (three only when evolved).
pub fn check_primary(state: &PlayerState, primary: &Primary) -> (r: bool)
    requires
        state.production.wf(),
    ensures
        r == spec_check_primary(*state, *primary),
{
    match primary {
        Primary::Move(Move::Move1(m1)) => {
            let mut tiles: Vec<Tile> = Vec::new();
            tiles.push(m1.0);
            proof {
                assert(tiles@ =~= seq![m1.0]);
            }
            check_movement(&state.production, tiles)
        }
        Primary::Move(Move::Move2(m1, m2)) => {
            let mut tiles: Vec<Tile> = Vec::new();
            tiles.push(m1.0);
            tiles.push(m2.0);
            proof {
                assert(tiles@ =~= seq![m1.0, m2.0]);
            }
            check_movement(&state.production, tiles)
        }
        Primary::Move(Move::Move3(m1, m2, m3)) => {
            if !state.upgrades.move_evolved {
                return false;
            }
            let mut tiles: Vec<Tile> = Vec::new();
            tiles.push(m1.0);
            tiles.push(m2.0);
            tiles.push(m3.0);
            proof {
                assert(tiles@ =~= seq![m1.0, m2.0, m3.0]);
            }
            check_movement(&state.production, tiles)
        }
        Primary::Tax => true,
        Primary::Trade(_, _) => state.coins >= 1,
        Primary::Promote => state.coins >= 1,
        Primary::Bolster => state.coins >= 1,
        Primary::Enforce => state.coins >= 1,
        Primary::Produce(Produce::Produce1(t1)) => {
            if !state.can_produce() {
                return false;
            }
            let reference = produce_state();
            let mut tiles: Vec<Tile> = Vec::new();
            tiles.push(*t1);
            proof {
                assert(tiles@ =~= seq![*t1]);
            }
            check_movement(&reference, tiles)
        }
        Primary::Produce(Produce::Produce2(t1, t2)) => {
            if !state.can_produce() {
                return false;
            }
            let reference = produce_state();
            let mut tiles: Vec<Tile> = Vec::new();
            tiles.push(*t1);
            tiles.push(*t2);
            proof {
                assert(tiles@ =~= seq![*t1, *t2]);
            }
            check_movement(&reference, tiles)
        }
        Primary::Produce(Produce::Produce3(t1, t2, t3)) => {
            if !state.can_produce() {
                return false;
            }
            if !state.upgrades.produce_evolved {
                return false;
            }
            let reference = produce_state();
            let mut tiles: Vec<Tile> = Vec::new();
            tiles.push(*t1);
            tiles.push(*t2);
            tiles.push(*t3);
            proof {
                assert(tiles@ =~= seq![*t1, *t2, *t3]);
            }
            check_movement(&reference, tiles)
        }
    }
}

/// Can the player pay a secondary category's resource cost right now?
pub open spec fn spec_check_secondary_cost(state: PlayerState, secondary: SecondaryAction) -> bool {
    (match secondary {
        SecondaryAction::Upgrade => state.resources.oil as int,
        SecondaryAction::Deploy => state.resources.metal as int,
        SecondaryAction::Build => state.resources.wood as int,
        SecondaryAction::Enlist => state.resources.food as int,
    }) >= state.upgrades.spec_get_upgrade_cost(secondary)
}

/// The affordability gate of a secondary action: the category's resource
/// stock against its current cost.
pub fn check_secondary_cost(state: &PlayerState, secondary: SecondaryAction) -> (r: bool)
    ensures
        r == spec_check_secondary_cost(*state, secondary),
{
    (match secondary {
        SecondaryAction::Upgrade => state.resources.oil,
        SecondaryAction::Deploy => state.resources.metal,
        SecondaryAction::Build => state.resources.wood,
        SecondaryAction::Enlist => state.resources.food,
    }) >= state.upgrades.get_upgrade_cost(secondary)
}

/// Counts of a one-tile request: one for that tile, none elsewhere.
pub proof fn lemma_counts1(t1: Tile)
    ensures
        forall|x: Tile|
            ProductionState::spec_new(seq![t1]).spec_get(x) == (if x == t1 {
                1int
            } else {
                0int
            }),
{
    let e = Seq::<Tile>::empty();
    assert(seq![t1].drop_last() =~= e);
    assert(ProductionState::spec_new(e) == ProductionState::spec_empty());
    assert(ProductionState::spec_new(seq![t1]) == ProductionState::spec_empty().spec_add(t1, 1));
}

/// Counts of a two-tile request: one per occurrence.
pub proof fn lemma_counts2(t1: Tile, t2: Tile)
    ensures
        forall|x: Tile|
            ProductionState::spec_new(seq![t1, t2]).spec_get(x) == (if x == t1 {
                1int
            } else {
                0int
            }) + (if x == t2 {
                1int
            } else {
                0int
            }),
{
    lemma_counts1(t1);
    assert(seq![t1, t2].drop_last() =~= seq![t1]);
    assert(ProductionState::spec_new(seq![t1, t2]) == ProductionState::spec_new(
        seq![t1],
    ).spec_add(t2, 1));
    let n1 = ProductionState::spec_new(seq![t1]);
    assert(n1.spec_get(Tile::Woods) + n1.spec_get(Tile::Mountain) + n1.spec_get(Tile::Tundra)
        + n1.spec_get(Tile::Farm) + n1.spec_get(Tile::Village) == 1);
    assert(n1.spec_total() == 1);
}

/// Counts of a three-tile request: one per occurrence.
#[verifier::rlimit(100)]
#[verifier::spinoff_prover]
pub proof fn lemma_counts3(t1: Tile, t2: Tile, t3: Tile)
    ensures
        forall|x: Tile|
            ProductionState::spec_new(seq![t1, t2, t3]).spec_get(x) == (if x == t1 {
                1int
            } else {
                0int
            }) + (if x == t2 {
                1int
            } else {
                0int
            }) + (if x == t3 {
                1int
            } else {
                0int
            }),
{
    lemma_counts2(t1, t2);
    assert(seq![t1, t2, t3].drop_last() =~= seq![t1, t2]);
    assert(ProductionState::spec_new(seq![t1, t2, t3]) == ProductionState::spec_new(
        seq![t1, t2],
    ).spec_add(t3, 1));
    let n2 = ProductionState::spec_new(seq![t1, t2]);
    assert(n2.spec_get(Tile::Woods) + n2.spec_get(Tile::Mountain) + n2.spec_get(Tile::Tundra)
        + n2.spec_get(Tile::Farm) + n2.spec_get(Tile::Village) == 2);
    assert(n2.spec_total() == 2);
}

/// The reference production pattern holds exactly one worker per tile.
pub proof fn lemma_produce_state_counts()
    ensures
        forall|x: Tile| spec_produce_state().spec_get(x) == 1,
{
    let e = Seq::<Tile>::empty();
    let s1 = seq![Tile::Woods];
    let s2 = seq![Tile::Woods, Tile::Mountain];
    let s3 = seq![Tile::Woods, Tile::Mountain, Tile::Tundra];
    let s4 = seq![Tile::Woods, Tile::Mountain, Tile::Tundra, Tile::Farm];
    let s5 = seq![Tile::Woods, Tile::Mountain, Tile::Tundra, Tile::Farm, Tile::Village];
    assert(s1.drop_last() =~= e);
    assert(s2.drop_last() =~= s1);
    assert(s3.drop_last() =~= s2);
    assert(s4.drop_last() =~= s3);
    assert(s5.drop_last() =~= s4);
    assert(ProductionState::spec_new(e) == ProductionState::spec_empty());
    assert(ProductionState::spec_new(s1) == ProductionState::spec_new(e).spec_add(Tile::Woods, 1));
    assert(ProductionState::spec_new(s2) == ProductionState::spec_new(s1).spec_add(
        Tile::Mountain,
        1,
    ));
    assert(ProductionState::spec_new(s3) == ProductionState::spec_new(s2).spec_add(
        Tile::Tundra,
        1,
    ));
    assert(ProductionState::spec_new(s4) == ProductionState::spec_new(s3).spec_add(Tile::Farm, 1));
    assert(ProductionState::spec_new(s5) == ProductionState::spec_new(s4).spec_add(
        Tile::Village,
        1,
    ));
}

} // verus!
