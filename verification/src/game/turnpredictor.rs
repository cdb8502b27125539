use vstd::prelude::*;

use crate::game::mechs::Mech;
use crate::game::recruits::Recruit;
use crate::game::turnhelper::{
    check_primary, check_secondary_cost, lemma_counts1, lemma_counts2, lemma_counts3,
    lemma_produce_state_counts, spec_check_primary, spec_check_secondary_cost,
};
use crate::game::upgrades::{PrimaryUpgrade, SecondaryUpgrade};
use crate::game::Resource;
use crate::game_state::PlayerState;
use crate::template::SecondaryAction;
use crate::turn::execute::{map_primary, spec_map_primary, spec_map_secondary, spec_turn, turn};
use crate::turn::turnmask::{Building, Move, Movement, Primary, Produce, Secondary, Tile, TurnMask};

verus! {

/// Is the specific secondary still available in the state: the upgrade
/// slots open, the mech undeployed, the building unbuilt, the recruit
/// slots unfilled?
pub open spec fn spec_secondary_available(s: PlayerState, sec: Secondary) -> bool {
    match sec {
        Secondary::Upgrade(p, su) => s.upgrades.spec_can_upgrade_primary(p)
            && s.upgrades.spec_can_upgrade_secondary(su),
        Secondary::Deploy(m) => s.mechs.spec_can_deploy(m),
        Secondary::Build(b) => s.buildings.spec_can_build(b),
        Secondary::Enlist(sr, ot) => !s.recruits.spec_is_secondary_recruited(sr)
            && !s.recruits.spec_is_onetime_recruited(ot),
    }
}

/// Soundness of one enumerated descriptor: the primary passes the
/// checker; a secondary is the player-mat-linked category, its cost is
/// affordable after the primary is hypothetically applied, and the
/// specific choice is still available then.
pub open spec fn spec_mask_sound(s: PlayerState, m: TurnMask) -> bool {
    match m {
        TurnMask::PrimaryOnly(p) => spec_check_primary(s, p),
        TurnMask::PrimaryAndSecondary(p, sec) => {
            let new = spec_turn(s, TurnMask::PrimaryOnly(p));
            &&& spec_check_primary(s, p)
            &&& spec_map_secondary(sec) == s.spec_get_secondary(spec_map_primary(p))
            &&& spec_check_secondary_cost(new, spec_map_secondary(sec))
            &&& spec_secondary_available(new, sec)
        },
    }
}

/// Exactly the primary shapes the enumerator yields: Tax always; the
/// coin-spending actions with a coin at hand; Produce over one to three
/// occupied tiles in ascending tile order behind the affordability gate
/// (three only when evolved); and relocations that repeat one ordered
/// pair of distinct tiles, one step per worker available at the source
/// (three steps only when the move upgrade is evolved). The checker is
/// wider: it also accepts multi-step moves over two different pairs and
/// produce requests at unoccupied tiles, which the enumeration
/// deliberately leaves out.
pub open spec fn spec_primary_enumerated(s: PlayerState, p: Primary) -> bool {
    match p {
        Primary::Tax => true,
        Primary::Trade(_, _) => s.coins >= 1,
        Primary::Promote => s.coins >= 1,
        Primary::Bolster => s.coins >= 1,
        Primary::Enforce => s.coins >= 1,
        Primary::Produce(Produce::Produce1(t)) => s.spec_can_produce()
            && s.production.spec_get(t) > 0,
        Primary::Produce(Produce::Produce2(t1, t2)) => s.spec_can_produce()
            && spec_tile_index(t1) < spec_tile_index(t2) && s.production.spec_get(t1) > 0
            && s.production.spec_get(t2) > 0,
        Primary::Produce(Produce::Produce3(t1, t2, t3)) => s.spec_can_produce()
            && s.upgrades.produce_evolved && spec_tile_index(t1) < spec_tile_index(t2)
            && spec_tile_index(t2) < spec_tile_index(t3) && s.production.spec_get(t1) > 0
            && s.production.spec_get(t2) > 0 && s.production.spec_get(t3) > 0,
        Primary::Move(Move::Move1(m)) => m.0 != m.1 && s.production.spec_get(m.0) >= 1,
        Primary::Move(Move::Move2(m1, m2)) => m1 == m2 && m1.0 != m1.1
            && s.production.spec_get(m1.0) >= 2,
        Primary::Move(Move::Move3(m1, m2, m3)) => m1 == m2 && m2 == m3 && m1.0 != m1.1
            && s.upgrades.move_evolved && s.production.spec_get(m1.0) >= 3,
    }
}

/// Completeness for the coin-gated shapes: of the Tax, Trade, Promote,
/// Bolster and Enforce descriptors, the checker accepts none that the
/// enumerator would not also produce.
pub proof fn lemma_coin_actions_complete(s: PlayerState, p: Primary)
    requires
        spec_check_primary(s, p),
        p is Tax || p is Trade || p is Promote || p is Bolster || p is Enforce,
    ensures
        spec_primary_enumerated(s, p),
{
}

/// Pushing a fresh element keeps a sequence free of duplicates.
proof fn lemma_push_no_duplicates<A>(s: Seq<A>, x: A)
    requires
        s.no_duplicates(),
        !s.contains(x),
    ensures
        s.push(x).no_duplicates(),
{
    let t = s.push(x);
    assert forall|a: int, b: int|
        0 <= a < t.len() && 0 <= b < t.len() && a != b implies t[a] != t[b] by {
        if a < s.len() && b < s.len() {
            assert(t[a] == s[a] && t[b] == s[b]);
        } else if a < s.len() {
            assert(t[b] == x);
            if t[a] == x {
                assert(s[a] == x);
                assert(s.contains(x));
            }
        } else {
            assert(t[a] == x);
            if t[b] == x {
                assert(s[b] == x);
                assert(s.contains(x));
            }
        }
    }
}

/// A push keeps every element the sequence already contains.
proof fn lemma_push_contains<A>(s: Seq<A>, x: A, y: A)
    requires
        s.contains(y),
    ensures
        s.push(x).contains(y),
{
    let i = choose|i: int| 0 <= i < s.len() && s[i] == y;
    assert(s.push(x)[i] == y);
}

pub open spec fn spec_tile_at(k: int) -> Tile {
    if k == 0 {
        Tile::Woods
    } else if k == 1 {
        Tile::Mountain
    } else if k == 2 {
        Tile::Tundra
    } else if k == 3 {
        Tile::Farm
    } else {
        Tile::Village
    }
}

pub open spec fn spec_tile_index(t: Tile) -> int {
    match t {
        Tile::Woods => 0,
        Tile::Mountain => 1,
        Tile::Tundra => 2,
        Tile::Farm => 3,
        Tile::Village => 4,
    }
}

fn tile_at(k: usize) -> (r: Tile)
    requires
        k < 5,
    ensures
        r == spec_tile_at(k as int),
{
    if k == 0 {
        Tile::Woods
    } else if k == 1 {
        Tile::Mountain
    } else if k == 2 {
        Tile::Tundra
    } else if k == 3 {
        Tile::Farm
    } else {
        Tile::Village
    }
}

pub open spec fn spec_resource_at(k: int) -> Resource {
    if k == 0 {
        Resource::Wood
    } else if k == 1 {
        Resource::Metal
    } else if k == 2 {
        Resource::Oil
    } else {
        Resource::Food
    }
}

pub open spec fn spec_resource_index(r: Resource) -> int {
    match r {
        Resource::Wood => 0,
        Resource::Metal => 1,
        Resource::Oil => 2,
        Resource::Food => 3,
    }
}

fn resource_at(k: usize) -> (r: Resource)
    requires
        k < 4,
    ensures
        r == spec_resource_at(k as int),
{
    if k == 0 {
        Resource::Wood
    } else if k == 1 {
        Resource::Metal
    } else if k == 2 {
        Resource::Oil
    } else {
        Resource::Food
    }
}

/// All sixteen trade requests, one per ordered pair of resources.
fn get_trades() -> (r: Vec<Primary>)
    ensures
        forall|i: int| 0 <= i < r@.len() ==> (#[trigger] r@[i]) matches Primary::Trade(_, _),
        forall|r1: Resource, r2: Resource| r@.contains(Primary::Trade(r1, r2)),
{
    let mut trades: Vec<Primary> = Vec::new();
    let mut a: usize = 0;
    while a < 4
        invariant
            0 <= a <= 4,
            forall|i: int|
                0 <= i < trades@.len() ==> (#[trigger] trades@[i]) matches Primary::Trade(_, _),
            forall|x: Resource, y: Resource|
                spec_resource_index(x) < a ==> trades@.contains(Primary::Trade(x, y)),
        decreases 4 - a,
    {
        let res1 = resource_at(a);
        let mut b: usize = 0;
        while b < 4
            invariant
                0 <= b <= 4,
                a < 4,
                res1 == spec_resource_at(a as int),
                forall|i: int|
                    0 <= i < trades@.len() ==> (#[trigger] trades@[i]) matches Primary::Trade(
                        _,
                        _,
                    ),
                forall|x: Resource, y: Resource|
                    spec_resource_index(x) < a ==> trades@.contains(Primary::Trade(x, y)),
                forall|y: Resource|
                    spec_resource_index(y) < b ==> trades@.contains(Primary::Trade(res1, y)),
            decreases 4 - b,
        {
            let res2 = resource_at(b);
            let ghost before = trades@;
            trades.push(Primary::Trade(res1, res2));
            proof {
                assert forall|x: Resource, y: Resource|
                    spec_resource_index(x) < a implies trades@.contains(
                    Primary::Trade(x, y),
                ) by {
                    lemma_push_contains(before, Primary::Trade(res1, res2), Primary::Trade(x, y));
                }
                assert forall|y: Resource|
                    spec_resource_index(y) < b + 1 implies trades@.contains(
                    Primary::Trade(res1, y),
                ) by {
                    if spec_resource_index(y) < b {
                        lemma_push_contains(
                            before,
                            Primary::Trade(res1, res2),
                            Primary::Trade(res1, y),
                        );
                    } else {
                        assert(y == res2);
                        assert(trades@[trades@.len() - 1] == Primary::Trade(res1, res2));
                    }
                }
            }
            b = b + 1;
        }
        proof {
            assert forall|x: Resource, y: Resource|
                spec_resource_index(x) < a + 1 implies trades@.contains(Primary::Trade(x, y)) by {
                if spec_resource_index(x) == a {
                    assert(x == res1);
                    assert(spec_resource_index(y) < 4);
                }
            }
        }
        a = a + 1;
    }
    proof {
        assert forall|r1: Resource, r2: Resource| true implies trades@.contains(
            Primary::Trade(r1, r2),
        ) by {
            assert(spec_resource_index(r1) < 4);
        }
    }
    trades
}

/// Every produce request the state supports, and only those: triples of
/// distinct occupied tiles in ascending tile order when the produce
/// upgrade is evolved, then pairs, then singles.
fn get_produces(state: &PlayerState) -> (r: Vec<Primary>)
    requires
        state.wf(),
        state.spec_can_produce(),
    ensures
        forall|i: int| 0 <= i < r@.len() ==> spec_check_primary(*state, #[trigger] r@[i]),
        forall|i: int|
            0 <= i < r@.len() ==> spec_primary_enumerated(*state, #[trigger] r@[i]) && r@[i]
                matches Primary::Produce(_),
        forall|t: Tile|
            state.production.spec_get(t) > 0 ==> r@.contains(
                Primary::Produce(Produce::Produce1(t)),
            ),
        forall|t1: Tile, t2: Tile|
            spec_tile_index(t1) < spec_tile_index(t2) && state.production.spec_get(t1) > 0
                && state.production.spec_get(t2) > 0 ==> r@.contains(
                Primary::Produce(Produce::Produce2(t1, t2)),
            ),
        forall|t1: Tile, t2: Tile, t3: Tile|
            state.upgrades.produce_evolved && spec_tile_index(t1) < spec_tile_index(t2)
                && spec_tile_index(t2) < spec_tile_index(t3) && state.production.spec_get(t1) > 0
                && state.production.spec_get(t2) > 0 && state.production.spec_get(t3)
                > 0 ==> r@.contains(Primary::Produce(Produce::Produce3(t1, t2, t3))),
{
    let mut produces: Vec<Primary> = Vec::new();
    proof {
        lemma_produce_state_counts();
    }

    if state.upgrades.produce_evolved {
        let mut a: usize = 0;
        while a < 5
            invariant
                state.wf(),
                state.spec_can_produce(),
                state.upgrades.produce_evolved,
                0 <= a <= 5,
                forall|i: int|
                    0 <= i < produces@.len() ==> spec_check_primary(
                        *state,
                        #[trigger] produces@[i],
                    ),
                forall|i: int|
                    0 <= i < produces@.len() ==> spec_primary_enumerated(
                        *state,
                        #[trigger] produces@[i],
                    ) && produces@[i] matches Primary::Produce(_),
                forall|x: Tile, y: Tile, z: Tile|
                    spec_tile_index(x) < a && spec_tile_index(x) < spec_tile_index(y)
                        && spec_tile_index(y) < spec_tile_index(z)
                        && state.production.spec_get(x) > 0 && state.production.spec_get(y) > 0
                        && state.production.spec_get(z) > 0 ==> produces@.contains(
                        Primary::Produce(Produce::Produce3(x, y, z)),
                    ),
            decreases 5 - a,
        {
            let tile_a = tile_at(a);
            if state.production.get(&tile_a) > 0 {
                let mut b: usize = a + 1;
                while b < 5
                    invariant
                        state.wf(),
                        state.spec_can_produce(),
                        state.upgrades.produce_evolved,
                        a < b <= 5,
                        tile_a == spec_tile_at(a as int),
                        state.production.spec_get(tile_a) > 0,
                        forall|i: int|
                            0 <= i < produces@.len() ==> spec_check_primary(
                                *state,
                                #[trigger] produces@[i],
                            ),
                        forall|i: int|
                            0 <= i < produces@.len() ==> spec_primary_enumerated(
                                *state,
                                #[trigger] produces@[i],
                            ) && produces@[i] matches Primary::Produce(_),
                        forall|x: Tile, y: Tile, z: Tile|
                            spec_tile_index(x) < a && spec_tile_index(x) < spec_tile_index(y)
                                && spec_tile_index(y) < spec_tile_index(z)
                                && state.production.spec_get(x) > 0 && state.production.spec_get(
                                y,
                            ) > 0 && state.production.spec_get(z) > 0 ==> produces@.contains(
                                Primary::Produce(Produce::Produce3(x, y, z)),
                            ),
                        forall|y: Tile, z: Tile|
                            a < spec_tile_index(y) < b && spec_tile_index(y) < spec_tile_index(z)
                                && state.production.spec_get(y) > 0 && state.production.spec_get(
                                z,
                            ) > 0 ==> produces@.contains(
                                Primary::Produce(Produce::Produce3(tile_a, y, z)),
                            ),
                    decreases 5 - b,
                {
                    let tile_b = tile_at(b);
                    if state.production.get(&tile_b) > 0 {
                        let mut c: usize = b + 1;
                        while c < 5
                            invariant
                                state.wf(),
                                state.spec_can_produce(),
                                state.upgrades.produce_evolved,
                                a < b < c <= 5,
                                b < 5,
                                tile_a == spec_tile_at(a as int),
                                tile_b == spec_tile_at(b as int),
                                state.production.spec_get(tile_a) > 0,
                                state.production.spec_get(tile_b) > 0,
                                forall|i: int|
                                    0 <= i < produces@.len() ==> spec_check_primary(
                                        *state,
                                        #[trigger] produces@[i],
                                    ),
                                forall|i: int|
                                    0 <= i < produces@.len() ==> spec_primary_enumerated(
                                        *state,
                                        #[trigger] produces@[i],
                                    ) && produces@[i] matches Primary::Produce(_),
                                forall|x: Tile, y: Tile, z: Tile|
                                    spec_tile_index(x) < a && spec_tile_index(x)
                                        < spec_tile_index(y) && spec_tile_index(y)
                                        < spec_tile_index(z) && state.production.spec_get(x) > 0
                                        && state.production.spec_get(y) > 0
                                        && state.production.spec_get(z)
                                        > 0 ==> produces@.contains(
                                        Primary::Produce(Produce::Produce3(x, y, z)),
                                    ),
                                forall|y: Tile, z: Tile|
                                    a < spec_tile_index(y) < b && spec_tile_index(y)
                                        < spec_tile_index(z) && state.production.spec_get(y) > 0
                                        && state.production.spec_get(z)
                                        > 0 ==> produces@.contains(
                                        Primary::Produce(Produce::Produce3(tile_a, y, z)),
                                    ),
                                forall|z: Tile|
                                    b < spec_tile_index(z) < c && state.production.spec_get(z)
                                        > 0 ==> produces@.contains(
                                        Primary::Produce(Produce::Produce3(tile_a, tile_b, z)),
                                    ),
                            decreases 5 - c,
                        {
                            let tile_c = tile_at(c);
                            if state.production.get(&tile_c) > 0 {
                                let ghost before = produces@;
                                proof {
                                    lemma_produce_state_counts();
                                    lemma_counts3(tile_a, tile_b, tile_c);
                                }
                                produces.push(
                                    Primary::Produce(Produce::Produce3(tile_a, tile_b, tile_c)),
                                );
                                proof {
                                    assert(produces@[produces@.len() - 1] == Primary::Produce(
                                        Produce::Produce3(tile_a, tile_b, tile_c),
                                    ));
                                    keep_triple_facts(
                                        state,
                                        before,
                                        Primary::Produce(
                                            Produce::Produce3(tile_a, tile_b, tile_c),
                                        ),
                                        a as int,
                                        b as int,
                                        c as int,
                                        tile_a,
                                        tile_b,
                                    );
                                    assert forall|z: Tile|
                                        b < spec_tile_index(z) < c + 1
                                            && state.production.spec_get(z)
                                            > 0 implies produces@.contains(
                                        Primary::Produce(Produce::Produce3(tile_a, tile_b, z)),
                                    ) by {
                                        if spec_tile_index(z) == c as int {
                                            assert(z == tile_c);
                                        }
                                    }
                                }
                            } else {
                                proof {
                                    assert forall|z: Tile|
                                        b < spec_tile_index(z) < c + 1
                                            && state.production.spec_get(z)
                                            > 0 implies produces@.contains(
                                        Primary::Produce(Produce::Produce3(tile_a, tile_b, z)),
                                    ) by {
                                        if spec_tile_index(z) == c as int {
                                            assert(z == tile_c);
                                            assert(false);
                                        }
                                    }
                                }
                            }
                            c = c + 1;
                        }
                        proof {
                            assert forall|y: Tile, z: Tile|
                                a < spec_tile_index(y) < b + 1 && spec_tile_index(y)
                                    < spec_tile_index(z) && state.production.spec_get(y) > 0
                                    && state.production.spec_get(z)
                                    > 0 implies produces@.contains(
                                Primary::Produce(Produce::Produce3(tile_a, y, z)),
                            ) by {
                                if spec_tile_index(y) == b as int {
                                    assert(y == tile_b);
                                    assert(spec_tile_index(z) < 5);
                                }
                            }
                        }
                    } else {
                        proof {
                            assert forall|y: Tile, z: Tile|
                                a < spec_tile_index(y) < b + 1 && spec_tile_index(y)
                                    < spec_tile_index(z) && state.production.spec_get(y) > 0
                                    && state.production.spec_get(z)
                                    > 0 implies produces@.contains(
                                Primary::Produce(Produce::Produce3(tile_a, y, z)),
                            ) by {
                                if spec_tile_index(y) == b as int {
                                    assert(y == tile_b);
                                    assert(false);
                                }
                            }
                        }
                    }
                    b = b + 1;
                }
            }
            proof {
                assert forall|x: Tile, y: Tile, z: Tile|
                    spec_tile_index(x) < a + 1 && spec_tile_index(x) < spec_tile_index(y)
                        && spec_tile_index(y) < spec_tile_index(z) && state.production.spec_get(
                        x,
                    ) > 0 && state.production.spec_get(y) > 0 && state.production.spec_get(z)
                        > 0 implies produces@.contains(
                    Primary::Produce(Produce::Produce3(x, y, z)),
                ) by {
                    if spec_tile_index(x) == a as int {
                        assert(x == tile_a);
                        assert(a < spec_tile_index(y) < 5);
                    }
                }
            }
            a = a + 1;
        }
    }
    let mut a: usize = 0;
    while a < 5
        invariant
            state.wf(),
            state.spec_can_produce(),
            0 <= a <= 5,
            forall|i: int|
                0 <= i < produces@.len() ==> spec_check_primary(*state, #[trigger] produces@[i]),
            forall|i: int|
                0 <= i < produces@.len() ==> spec_primary_enumerated(
                    *state,
                    #[trigger] produces@[i],
                ) && produces@[i] matches Primary::Produce(_),
            forall|x: Tile, y: Tile, z: Tile|
                state.upgrades.produce_evolved && spec_tile_index(x) < spec_tile_index(y)
                    && spec_tile_index(y) < spec_tile_index(z) && state.production.spec_get(x) > 0
                    && state.production.spec_get(y) > 0 && state.production.spec_get(z)
                    > 0 ==> produces@.contains(Primary::Produce(Produce::Produce3(x, y, z))),
            forall|x: Tile, y: Tile|
                spec_tile_index(x) < a && spec_tile_index(x) < spec_tile_index(y)
                    && state.production.spec_get(x) > 0 && state.production.spec_get(y)
                    > 0 ==> produces@.contains(Primary::Produce(Produce::Produce2(x, y))),
        decreases 5 - a,
    {
        let tile_a = tile_at(a);
        if state.production.get(&tile_a) > 0 {
            let mut b: usize = a + 1;
            while b < 5
                invariant
                    state.wf(),
                    state.spec_can_produce(),
                    a < b <= 5,
                    tile_a == spec_tile_at(a as int),
                    state.production.spec_get(tile_a) > 0,
                    forall|i: int|
                        0 <= i < produces@.len() ==> spec_check_primary(
                            *state,
                            #[trigger] produces@[i],
                        ),
                    forall|i: int|
                        0 <= i < produces@.len() ==> spec_primary_enumerated(
                            *state,
                            #[trigger] produces@[i],
                        ) && produces@[i] matches Primary::Produce(_),
                    forall|x: Tile, y: Tile, z: Tile|
                        state.upgrades.produce_evolved && spec_tile_index(x) < spec_tile_index(y)
                            && spec_tile_index(y) < spec_tile_index(z)
                            && state.production.spec_get(x) > 0 && state.production.spec_get(y)
                            > 0 && state.production.spec_get(z) > 0 ==> produces@.contains(
                            Primary::Produce(Produce::Produce3(x, y, z)),
                        ),
                    forall|x: Tile, y: Tile|
                        spec_tile_index(x) < a && spec_tile_index(x) < spec_tile_index(y)
                            && state.production.spec_get(x) > 0 && state.production.spec_get(y)
                            > 0 ==> produces@.contains(
                            Primary::Produce(Produce::Produce2(x, y)),
                        ),
                    forall|y: Tile|
                        a < spec_tile_index(y) < b && state.production.spec_get(y)
                            > 0 ==> produces@.contains(
                            Primary::Produce(Produce::Produce2(tile_a, y)),
                        ),
                decreases 5 - b,
            {
                let tile_b = tile_at(b);
                if state.production.get(&tile_b) > 0 {
                    let ghost before = produces@;
                    proof {
                        lemma_produce_state_counts();
                        lemma_counts2(tile_a, tile_b);
                    }
                    produces.push(Primary::Produce(Produce::Produce2(tile_a, tile_b)));
                    proof {
                        assert(produces@[produces@.len() - 1] == Primary::Produce(
                            Produce::Produce2(tile_a, tile_b),
                        ));
                        keep_pair_facts(
                            state,
                            before,
                            Primary::Produce(Produce::Produce2(tile_a, tile_b)),
                            a as int,
                            b as int,
                            tile_a,
                        );
                        assert forall|y: Tile|
                            a < spec_tile_index(y) < b + 1 && state.production.spec_get(y)
                                > 0 implies produces@.contains(
                            Primary::Produce(Produce::Produce2(tile_a, y)),
                        ) by {
                            if spec_tile_index(y) == b as int {
                                assert(y == tile_b);
                            }
                        }
                    }
                } else {
                    proof {
                        assert forall|y: Tile|
                            a < spec_tile_index(y) < b + 1 && state.production.spec_get(y)
                                > 0 implies produces@.contains(
                            Primary::Produce(Produce::Produce2(tile_a, y)),
                        ) by {
                            if spec_tile_index(y) == b as int {
                                assert(y == tile_b);
                                assert(false);
                            }
                        }
                    }
                }
                b = b + 1;
            }
        }
        proof {
            assert forall|x: Tile, y: Tile|
                spec_tile_index(x) < a + 1 && spec_tile_index(x) < spec_tile_index(y)
                    && state.production.spec_get(x) > 0 && state.production.spec_get(y)
                    > 0 implies produces@.contains(Primary::Produce(Produce::Produce2(x, y))) by {
                if spec_tile_index(x) == a as int {
                    assert(x == tile_a);
                    assert(a < spec_tile_index(y) < 5);
                }
            }
        }
        a = a + 1;
    }

    let mut k: usize = 0;
    while k < 5
        invariant
            state.wf(),
            state.spec_can_produce(),
            0 <= k <= 5,
            forall|i: int|
                0 <= i < produces@.len() ==> spec_check_primary(*state, #[trigger] produces@[i]),
            forall|i: int|
                0 <= i < produces@.len() ==> spec_primary_enumerated(
                    *state,
                    #[trigger] produces@[i],
                ) && produces@[i] matches Primary::Produce(_),
            forall|x: Tile, y: Tile, z: Tile|
                state.upgrades.produce_evolved && spec_tile_index(x) < spec_tile_index(y)
                    && spec_tile_index(y) < spec_tile_index(z) && state.production.spec_get(x) > 0
                    && state.production.spec_get(y) > 0 && state.production.spec_get(z)
                    > 0 ==> produces@.contains(Primary::Produce(Produce::Produce3(x, y, z))),
            forall|x: Tile, y: Tile|
                spec_tile_index(x) < spec_tile_index(y) && state.production.spec_get(x) > 0
                    && state.production.spec_get(y) > 0 ==> produces@.contains(
                    Primary::Produce(Produce::Produce2(x, y)),
                ),
            forall|t: Tile|
                spec_tile_index(t) < k && state.production.spec_get(t) > 0 ==> produces@.contains(
                    Primary::Produce(Produce::Produce1(t)),
                ),
        decreases 5 - k,
    {
        let t = tile_at(k);
        if state.production.get(&t) > 0 {
            let ghost before = produces@;
            proof {
                lemma_produce_state_counts();
                lemma_counts1(t);
            }
            produces.push(Primary::Produce(Produce::Produce1(t)));
            proof {
                assert(produces@[produces@.len() - 1] == Primary::Produce(Produce::Produce1(t)));
                keep_single_facts(state, before, Primary::Produce(Produce::Produce1(t)), k as int);
                assert forall|x: Tile|
                    spec_tile_index(x) < k + 1 && state.production.spec_get(x)
                        > 0 implies produces@.contains(
                    Primary::Produce(Produce::Produce1(x)),
                ) by {
                    if spec_tile_index(x) == k as int {
                        assert(x == t);
                    }
                }
            }
        } else {
            proof {
                assert forall|x: Tile|
                    spec_tile_index(x) < k + 1 && state.production.spec_get(x)
                        > 0 implies produces@.contains(
                    Primary::Produce(Produce::Produce1(x)),
                ) by {
                    if spec_tile_index(x) == k as int {
                        assert(x == t);
                        assert(false);
                    }
                }
            }
        }
        k = k + 1;
    }
    proof {
        assert forall|t: Tile|
            state.production.spec_get(t) > 0 implies produces@.contains(
            Primary::Produce(Produce::Produce1(t)),
        ) by {
            assert(spec_tile_index(t) < 5);
        }
    }
    produces
}

/// A push to the produce list keeps the gathered triple facts.
proof fn keep_triple_facts(
    state: &PlayerState,
    before: Seq<Primary>,
    pushed: Primary,
    a: int,
    b: int,
    c: int,
    tile_a: Tile,
    tile_b: Tile,
)
    requires
        forall|x: Tile, y: Tile, z: Tile|
            spec_tile_index(x) < a && spec_tile_index(x) < spec_tile_index(y) && spec_tile_index(
                y,
            ) < spec_tile_index(z) && state.production.spec_get(x) > 0
                && state.production.spec_get(y) > 0 && state.production.spec_get(z)
                > 0 ==> before.contains(Primary::Produce(Produce::Produce3(x, y, z))),
        forall|y: Tile, z: Tile|
            a < spec_tile_index(y) < b && spec_tile_index(y) < spec_tile_index(z)
                && state.production.spec_get(y) > 0 && state.production.spec_get(z)
                > 0 ==> before.contains(Primary::Produce(Produce::Produce3(tile_a, y, z))),
        forall|z: Tile|
            b < spec_tile_index(z) < c && state.production.spec_get(z) > 0 ==> before.contains(
                Primary::Produce(Produce::Produce3(tile_a, tile_b, z)),
            ),
    ensures
        forall|x: Tile, y: Tile, z: Tile|
            spec_tile_index(x) < a && spec_tile_index(x) < spec_tile_index(y) && spec_tile_index(
                y,
            ) < spec_tile_index(z) && state.production.spec_get(x) > 0
                && state.production.spec_get(y) > 0 && state.production.spec_get(z)
                > 0 ==> before.push(pushed).contains(
                Primary::Produce(Produce::Produce3(x, y, z)),
            ),
        forall|y: Tile, z: Tile|
            a < spec_tile_index(y) < b && spec_tile_index(y) < spec_tile_index(z)
                && state.production.spec_get(y) > 0 && state.production.spec_get(z)
                > 0 ==> before.push(pushed).contains(
                Primary::Produce(Produce::Produce3(tile_a, y, z)),
            ),
        forall|z: Tile|
            b < spec_tile_index(z) < c && state.production.spec_get(z) > 0 ==> before.push(
                pushed,
            ).contains(Primary::Produce(Produce::Produce3(tile_a, tile_b, z))),
{
    assert forall|x: Tile, y: Tile, z: Tile|
        spec_tile_index(x) < a && spec_tile_index(x) < spec_tile_index(y) && spec_tile_index(y)
            < spec_tile_index(z) && state.production.spec_get(x) > 0 && state.production.spec_get(
            y,
        ) > 0 && state.production.spec_get(z) > 0 implies before.push(pushed).contains(
        Primary::Produce(Produce::Produce3(x, y, z)),
    ) by {
        lemma_push_contains(before, pushed, Primary::Produce(Produce::Produce3(x, y, z)));
    }
    assert forall|y: Tile, z: Tile|
        a < spec_tile_index(y) < b && spec_tile_index(y) < spec_tile_index(z)
            && state.production.spec_get(y) > 0 && state.production.spec_get(z)
            > 0 implies before.push(pushed).contains(
        Primary::Produce(Produce::Produce3(tile_a, y, z)),
    ) by {
        lemma_push_contains(before, pushed, Primary::Produce(Produce::Produce3(tile_a, y, z)));
    }
    assert forall|z: Tile|
        b < spec_tile_index(z) < c && state.production.spec_get(z) > 0 implies before.push(
        pushed,
    ).contains(Primary::Produce(Produce::Produce3(tile_a, tile_b, z))) by {
        lemma_push_contains(
            before,
            pushed,
            Primary::Produce(Produce::Produce3(tile_a, tile_b, z)),
        );
    }
}

/// A push to the produce list keeps the gathered pair and triple facts.
proof fn keep_pair_facts(
    state: &PlayerState,
    before: Seq<Primary>,
    pushed: Primary,
    a: int,
    b: int,
    tile_a: Tile,
)
    requires
        forall|x: Tile, y: Tile, z: Tile|
            state.upgrades.produce_evolved && spec_tile_index(x) < spec_tile_index(y)
                && spec_tile_index(y) < spec_tile_index(z) && state.production.spec_get(x) > 0
                && state.production.spec_get(y) > 0 && state.production.spec_get(z)
                > 0 ==> before.contains(Primary::Produce(Produce::Produce3(x, y, z))),
        forall|x: Tile, y: Tile|
            spec_tile_index(x) < a && spec_tile_index(x) < spec_tile_index(y)
                && state.production.spec_get(x) > 0 && state.production.spec_get(y)
                > 0 ==> before.contains(Primary::Produce(Produce::Produce2(x, y))),
        forall|y: Tile|
            a < spec_tile_index(y) < b && state.production.spec_get(y) > 0 ==> before.contains(
                Primary::Produce(Produce::Produce2(tile_a, y)),
            ),
    ensures
        forall|x: Tile, y: Tile, z: Tile|
            state.upgrades.produce_evolved && spec_tile_index(x) < spec_tile_index(y)
                && spec_tile_index(y) < spec_tile_index(z) && state.production.spec_get(x) > 0
                && state.production.spec_get(y) > 0 && state.production.spec_get(z)
                > 0 ==> before.push(pushed).contains(
                Primary::Produce(Produce::Produce3(x, y, z)),
            ),
        forall|x: Tile, y: Tile|
            spec_tile_index(x) < a && spec_tile_index(x) < spec_tile_index(y)
                && state.production.spec_get(x) > 0 && state.production.spec_get(y)
                > 0 ==> before.push(pushed).contains(Primary::Produce(Produce::Produce2(x, y))),
        forall|y: Tile|
            a < spec_tile_index(y) < b && state.production.spec_get(y) > 0 ==> before.push(
                pushed,
            ).contains(Primary::Produce(Produce::Produce2(tile_a, y))),
{
    assert forall|x: Tile, y: Tile, z: Tile|
        state.upgrades.produce_evolved && spec_tile_index(x) < spec_tile_index(y)
            && spec_tile_index(y) < spec_tile_index(z) && state.production.spec_get(x) > 0
            && state.production.spec_get(y) > 0 && state.production.spec_get(z)
            > 0 implies before.push(pushed).contains(
        Primary::Produce(Produce::Produce3(x, y, z)),
    ) by {
        lemma_push_contains(before, pushed, Primary::Produce(Produce::Produce3(x, y, z)));
    }
    assert forall|x: Tile, y: Tile|
        spec_tile_index(x) < a && spec_tile_index(x) < spec_tile_index(y)
            && state.production.spec_get(x) > 0 && state.production.spec_get(y)
            > 0 implies before.push(pushed).contains(
        Primary::Produce(Produce::Produce2(x, y)),
    ) by {
        lemma_push_contains(before, pushed, Primary::Produce(Produce::Produce2(x, y)));
    }
    assert forall|y: Tile|
        a < spec_tile_index(y) < b && state.production.spec_get(y) > 0 implies before.push(
        pushed,
    ).contains(Primary::Produce(Produce::Produce2(tile_a, y))) by {
        lemma_push_contains(before, pushed, Primary::Produce(Produce::Produce2(tile_a, y)));
    }
}

/// A push to the produce list keeps the gathered single, pair and triple
/// facts.
proof fn keep_single_facts(state: &PlayerState, before: Seq<Primary>, pushed: Primary, k: int)
    requires
        forall|x: Tile, y: Tile, z: Tile|
            state.upgrades.produce_evolved && spec_tile_index(x) < spec_tile_index(y)
                && spec_tile_index(y) < spec_tile_index(z) && state.production.spec_get(x) > 0
                && state.production.spec_get(y) > 0 && state.production.spec_get(z)
                > 0 ==> before.contains(Primary::Produce(Produce::Produce3(x, y, z))),
        forall|x: Tile, y: Tile|
            spec_tile_index(x) < spec_tile_index(y) && state.production.spec_get(x) > 0
                && state.production.spec_get(y) > 0 ==> before.contains(
                Primary::Produce(Produce::Produce2(x, y)),
            ),
        forall|t: Tile|
            spec_tile_index(t) < k && state.production.spec_get(t) > 0 ==> before.contains(
                Primary::Produce(Produce::Produce1(t)),
            ),
    ensures
        forall|x: Tile, y: Tile, z: Tile|
            state.upgrades.produce_evolved && spec_tile_index(x) < spec_tile_index(y)
                && spec_tile_index(y) < spec_tile_index(z) && state.production.spec_get(x) > 0
                && state.production.spec_get(y) > 0 && state.production.spec_get(z)
                > 0 ==> before.push(pushed).contains(
                Primary::Produce(Produce::Produce3(x, y, z)),
            ),
        forall|x: Tile, y: Tile|
            spec_tile_index(x) < spec_tile_index(y) && state.production.spec_get(x) > 0
                && state.production.spec_get(y) > 0 ==> before.push(pushed).contains(
                Primary::Produce(Produce::Produce2(x, y)),
            ),
        forall|t: Tile|
            spec_tile_index(t) < k && state.production.spec_get(t) > 0 ==> before.push(
                pushed,
            ).contains(Primary::Produce(Produce::Produce1(t))),
{
    assert forall|x: Tile, y: Tile, z: Tile|
        state.upgrades.produce_evolved && spec_tile_index(x) < spec_tile_index(y)
            && spec_tile_index(y) < spec_tile_index(z) && state.production.spec_get(x) > 0
            && state.production.spec_get(y) > 0 && state.production.spec_get(z)
            > 0 implies before.push(pushed).contains(
        Primary::Produce(Produce::Produce3(x, y, z)),
    ) by {
        lemma_push_contains(before, pushed, Primary::Produce(Produce::Produce3(x, y, z)));
    }
    assert forall|x: Tile, y: Tile|
        spec_tile_index(x) < spec_tile_index(y) && state.production.spec_get(x) > 0
            && state.production.spec_get(y) > 0 implies before.push(pushed).contains(
        Primary::Produce(Produce::Produce2(x, y)),
    ) by {
        lemma_push_contains(before, pushed, Primary::Produce(Produce::Produce2(x, y)));
    }
    assert forall|t: Tile|
        spec_tile_index(t) < k && state.production.spec_get(t) > 0 implies before.push(
        pushed,
    ).contains(Primary::Produce(Produce::Produce1(t))) by {
        lemma_push_contains(before, pushed, Primary::Produce(Produce::Produce1(t)));
    }
}

/// Every relocation request the state supports, and only those: for
/// each ordered pair of distinct tiles with a worker at the source, one
/// step; the same step doubled with two workers there; and tripled with
/// three when the move upgrade is evolved.
fn get_moves(state: &PlayerState) -> (r: Vec<Primary>)
    requires
        state.wf(),
    ensures
        forall|i: int| 0 <= i < r@.len() ==> spec_check_primary(*state, #[trigger] r@[i]),
        forall|i: int|
            0 <= i < r@.len() ==> spec_primary_enumerated(*state, #[trigger] r@[i]) && r@[i]
                matches Primary::Move(_),
        forall|t1: Tile, t2: Tile|
            t1 != t2 && state.production.spec_get(t1) >= 1 ==> r@.contains(
                Primary::Move(Move::Move1(Movement(t1, t2))),
            ),
        forall|t1: Tile, t2: Tile|
            t1 != t2 && state.production.spec_get(t1) >= 2 ==> r@.contains(
                Primary::Move(Move::Move2(Movement(t1, t2), Movement(t1, t2))),
            ),
        forall|t1: Tile, t2: Tile|
            t1 != t2 && state.upgrades.move_evolved && state.production.spec_get(t1) >= 3
                ==> r@.contains(
                Primary::Move(Move::Move3(Movement(t1, t2), Movement(t1, t2), Movement(t1, t2))),
            ),
{
    let mut moves: Vec<Primary> = Vec::new();
    let mut a: usize = 0;
    while a < 5
        invariant
            state.wf(),
            0 <= a <= 5,
            forall|i: int|
                0 <= i < moves@.len() ==> spec_check_primary(*state, #[trigger] moves@[i]),
            forall|i: int|
                0 <= i < moves@.len() ==> spec_primary_enumerated(*state, #[trigger] moves@[i])
                    && moves@[i] matches Primary::Move(_),
            forall|x: Tile, y: Tile|
                spec_tile_index(x) < a && x != y && state.production.spec_get(x)
                    >= 1 ==> moves@.contains(Primary::Move(Move::Move1(Movement(x, y)))),
            forall|x: Tile, y: Tile|
                spec_tile_index(x) < a && x != y && state.production.spec_get(x)
                    >= 2 ==> moves@.contains(
                    Primary::Move(Move::Move2(Movement(x, y), Movement(x, y))),
                ),
            forall|x: Tile, y: Tile|
                spec_tile_index(x) < a && x != y && state.upgrades.move_evolved
                    && state.production.spec_get(x) >= 3 ==> moves@.contains(
                    Primary::Move(Move::Move3(Movement(x, y), Movement(x, y), Movement(x, y))),
                ),
        decreases 5 - a,
    {
        let tile1 = tile_at(a);
        let prod = state.production.get(&tile1);
        if prod >= 1 {
            let mut b: usize = 0;
            while b < 5
                invariant
                    state.wf(),
                    a < 5,
                    0 <= b <= 5,
                    tile1 == spec_tile_at(a as int),
                    prod == state.production.spec_get(tile1),
                    prod >= 1,
                    forall|i: int|
                        0 <= i < moves@.len() ==> spec_check_primary(*state, #[trigger] moves@[i]),
                    forall|i: int|
                        0 <= i < moves@.len() ==> spec_primary_enumerated(
                            *state,
                            #[trigger] moves@[i],
                        ) && moves@[i] matches Primary::Move(_),
                    forall|x: Tile, y: Tile|
                        spec_tile_index(x) < a && x != y && state.production.spec_get(x)
                            >= 1 ==> moves@.contains(Primary::Move(Move::Move1(Movement(x, y)))),
                    forall|x: Tile, y: Tile|
                        spec_tile_index(x) < a && x != y && state.production.spec_get(x)
                            >= 2 ==> moves@.contains(
                            Primary::Move(Move::Move2(Movement(x, y), Movement(x, y))),
                        ),
                    forall|x: Tile, y: Tile|
                        spec_tile_index(x) < a && x != y && state.upgrades.move_evolved
                            && state.production.spec_get(x) >= 3 ==> moves@.contains(
                            Primary::Move(
                                Move::Move3(Movement(x, y), Movement(x, y), Movement(x, y)),
                            ),
                        ),
                    forall|y: Tile|
                        spec_tile_index(y) < b && y != tile1 ==> moves@.contains(
                            Primary::Move(Move::Move1(Movement(tile1, y))),
                        ),
                    forall|y: Tile|
                        spec_tile_index(y) < b && y != tile1 && state.production.spec_get(tile1)
                            >= 2 ==> moves@.contains(
                            Primary::Move(Move::Move2(Movement(tile1, y), Movement(tile1, y))),
                        ),
                    forall|y: Tile|
                        spec_tile_index(y) < b && y != tile1 && state.upgrades.move_evolved
                            && state.production.spec_get(tile1) >= 3 ==> moves@.contains(
                            Primary::Move(
                                Move::Move3(
                                    Movement(tile1, y),
                                    Movement(tile1, y),
                                    Movement(tile1, y),
                                ),
                            ),
                        ),
                decreases 5 - b,
            {
                let tile2 = tile_at(b);
                if tile1 != tile2 {
                    let movement = Movement(tile1, tile2);
                    let ghost before1 = moves@;
                    proof {
                        lemma_counts1(tile1);
                    }
                    moves.push(Primary::Move(Move::Move1(movement)));
                    proof {
                        keep_move_facts(
                            state,
                            before1,
                            Primary::Move(Move::Move1(movement)),
                            a as int,
                            b as int,
                            b as int,
                            b as int,
                            tile1,
                        );
                        assert(moves@[moves@.len() - 1] == Primary::Move(Move::Move1(movement)));
                        assert forall|y: Tile|
                            spec_tile_index(y) < b + 1 && y != tile1 implies moves@.contains(
                            Primary::Move(Move::Move1(Movement(tile1, y))),
                        ) by {
                            if spec_tile_index(y) == b as int {
                                assert(y == tile2);
                            }
                        }
                    }
                    if prod >= 2 {
                        let ghost before2 = moves@;
                        proof {
                            lemma_counts2(tile1, tile1);
                        }
                        moves.push(Primary::Move(Move::Move2(movement, movement)));
                        proof {
                            keep_move_facts(
                                state,
                                before2,
                                Primary::Move(Move::Move2(movement, movement)),
                                a as int,
                                b as int + 1,
                                b as int,
                                b as int,
                                tile1,
                            );
                            assert(moves@[moves@.len() - 1] == Primary::Move(
                                Move::Move2(movement, movement),
                            ));
                            assert forall|y: Tile|
                                spec_tile_index(y) < b + 1 && y != tile1
                                    && state.production.spec_get(tile1)
                                    >= 2 implies moves@.contains(
                                Primary::Move(Move::Move2(Movement(tile1, y), Movement(tile1, y))),
                            ) by {
                                if spec_tile_index(y) == b as int {
                                    assert(y == tile2);
                                }
                            }
                        }
                    }
                    if state.upgrades.move_evolved && prod >= 3 {
                        let ghost before3 = moves@;
                        proof {
                            lemma_counts3(tile1, tile1, tile1);
                        }
                        moves.push(Primary::Move(Move::Move3(movement, movement, movement)));
                        proof {
                            keep_move_facts(
                                state,
                                before3,
                                Primary::Move(Move::Move3(movement, movement, movement)),
                                a as int,
                                b as int + 1,
                                b as int + 1,
                                b as int,
                                tile1,
                            );
                            assert(moves@[moves@.len() - 1] == Primary::Move(
                                Move::Move3(movement, movement, movement),
                            ));
                            assert forall|y: Tile|
                                spec_tile_index(y) < b + 1 && y != tile1
                                    && state.upgrades.move_evolved
                                    && state.production.spec_get(tile1)
                                    >= 3 implies moves@.contains(
                                Primary::Move(
                                    Move::Move3(
                                        Movement(tile1, y),
                                        Movement(tile1, y),
                                        Movement(tile1, y),
                                    ),
                                ),
                            ) by {
                                if spec_tile_index(y) == b as int {
                                    assert(y == tile2);
                                }
                            }
                        }
                    }
                    proof {
                        assert forall|y: Tile|
                            spec_tile_index(y) < b + 1 && y != tile1
                                && state.production.spec_get(tile1) >= 2 implies moves@.contains(
                            Primary::Move(Move::Move2(Movement(tile1, y), Movement(tile1, y))),
                        ) by {
                            if spec_tile_index(y) == b as int {
                                assert(y == tile2);
                            }
                        }
                        assert forall|y: Tile|
                            spec_tile_index(y) < b + 1 && y != tile1
                                && state.upgrades.move_evolved
                                && state.production.spec_get(tile1) >= 3 implies moves@.contains(
                            Primary::Move(
                                Move::Move3(
                                    Movement(tile1, y),
                                    Movement(tile1, y),
                                    Movement(tile1, y),
                                ),
                            ),
                        ) by {
                            if spec_tile_index(y) == b as int {
                                assert(y == tile2);
                            }
                        }
                    }
                } else {
                    proof {
                        assert forall|y: Tile|
                            spec_tile_index(y) < b + 1 && y != tile1 implies moves@.contains(
                            Primary::Move(Move::Move1(Movement(tile1, y))),
                        ) by {
                            if spec_tile_index(y) == b as int {
                                assert(y == tile2);
                                assert(false);
                            }
                        }
                        assert forall|y: Tile|
                            spec_tile_index(y) < b + 1 && y != tile1
                                && state.production.spec_get(tile1) >= 2 implies moves@.contains(
                            Primary::Move(Move::Move2(Movement(tile1, y), Movement(tile1, y))),
                        ) by {
                            if spec_tile_index(y) == b as int {
                                assert(y == tile2);
                                assert(false);
                            }
                        }
                        assert forall|y: Tile|
                            spec_tile_index(y) < b + 1 && y != tile1
                                && state.upgrades.move_evolved
                                && state.production.spec_get(tile1) >= 3 implies moves@.contains(
                            Primary::Move(
                                Move::Move3(
                                    Movement(tile1, y),
                                    Movement(tile1, y),
                                    Movement(tile1, y),
                                ),
                            ),
                        ) by {
                            if spec_tile_index(y) == b as int {
                                assert(y == tile2);
                                assert(false);
                            }
                        }
                    }
                }
                b = b + 1;
            }
        }
        proof {
            assert forall|x: Tile, y: Tile|
                spec_tile_index(x) < a + 1 && x != y && state.production.spec_get(x)
                    >= 1 implies moves@.contains(Primary::Move(Move::Move1(Movement(x, y)))) by {
                if spec_tile_index(x) == a as int {
                    assert(x == tile1);
                    assert(spec_tile_index(y) < 5);
                }
            }
            assert forall|x: Tile, y: Tile|
                spec_tile_index(x) < a + 1 && x != y && state.production.spec_get(x)
                    >= 2 implies moves@.contains(
                Primary::Move(Move::Move2(Movement(x, y), Movement(x, y))),
            ) by {
                if spec_tile_index(x) == a as int {
                    assert(x == tile1);
                    assert(spec_tile_index(y) < 5);
                }
            }
            assert forall|x: Tile, y: Tile|
                spec_tile_index(x) < a + 1 && x != y && state.upgrades.move_evolved
                    && state.production.spec_get(x) >= 3 implies moves@.contains(
                Primary::Move(Move::Move3(Movement(x, y), Movement(x, y), Movement(x, y))),
            ) by {
                if spec_tile_index(x) == a as int {
                    assert(x == tile1);
                    assert(spec_tile_index(y) < 5);
                }
            }
        }
        a = a + 1;
    }
    proof {
        assert forall|t1: Tile, t2: Tile|
            t1 != t2 && state.production.spec_get(t1) >= 1 implies moves@.contains(
            Primary::Move(Move::Move1(Movement(t1, t2))),
        ) by {
            assert(spec_tile_index(t1) < 5);
        }
        assert forall|t1: Tile, t2: Tile|
            t1 != t2 && state.production.spec_get(t1) >= 2 implies moves@.contains(
            Primary::Move(Move::Move2(Movement(t1, t2), Movement(t1, t2))),
        ) by {
            assert(spec_tile_index(t1) < 5);
        }
        assert forall|t1: Tile, t2: Tile|
            t1 != t2 && state.upgrades.move_evolved && state.production.spec_get(t1)
                >= 3 implies moves@.contains(
            Primary::Move(Move::Move3(Movement(t1, t2), Movement(t1, t2), Movement(t1, t2))),
        ) by {
            assert(spec_tile_index(t1) < 5);
        }
    }
    moves
}

/// A push to the move list keeps the membership facts gathered so far.
proof fn keep_move_facts(
    state: &PlayerState,
    before: Seq<Primary>,
    pushed: Primary,
    a: int,
    b1: int,
    b2: int,
    b3: int,
    tile1: Tile,
)
    requires
        forall|x: Tile, y: Tile|
            spec_tile_index(x) < a && x != y && state.production.spec_get(x)
                >= 1 ==> before.contains(Primary::Move(Move::Move1(Movement(x, y)))),
        forall|x: Tile, y: Tile|
            spec_tile_index(x) < a && x != y && state.production.spec_get(x)
                >= 2 ==> before.contains(
                Primary::Move(Move::Move2(Movement(x, y), Movement(x, y))),
            ),
        forall|x: Tile, y: Tile|
            spec_tile_index(x) < a && x != y && state.upgrades.move_evolved
                && state.production.spec_get(x) >= 3 ==> before.contains(
                Primary::Move(Move::Move3(Movement(x, y), Movement(x, y), Movement(x, y))),
            ),
        forall|y: Tile|
            spec_tile_index(y) < b1 && y != tile1 ==> before.contains(
                Primary::Move(Move::Move1(Movement(tile1, y))),
            ),
        forall|y: Tile|
            spec_tile_index(y) < b2 && y != tile1 && state.production.spec_get(tile1)
                >= 2 ==> before.contains(
                Primary::Move(Move::Move2(Movement(tile1, y), Movement(tile1, y))),
            ),
        forall|y: Tile|
            spec_tile_index(y) < b3 && y != tile1 && state.upgrades.move_evolved
                && state.production.spec_get(tile1) >= 3 ==> before.contains(
                Primary::Move(
                    Move::Move3(Movement(tile1, y), Movement(tile1, y), Movement(tile1, y)),
                ),
            ),
    ensures
        forall|x: Tile, y: Tile|
            spec_tile_index(x) < a && x != y && state.production.spec_get(x)
                >= 1 ==> before.push(pushed).contains(Primary::Move(Move::Move1(Movement(x, y)))),
        forall|x: Tile, y: Tile|
            spec_tile_index(x) < a && x != y && state.production.spec_get(x)
                >= 2 ==> before.push(pushed).contains(
                Primary::Move(Move::Move2(Movement(x, y), Movement(x, y))),
            ),
        forall|x: Tile, y: Tile|
            spec_tile_index(x) < a && x != y && state.upgrades.move_evolved
                && state.production.spec_get(x) >= 3 ==> before.push(pushed).contains(
                Primary::Move(Move::Move3(Movement(x, y), Movement(x, y), Movement(x, y))),
            ),
        forall|y: Tile|
            spec_tile_index(y) < b1 && y != tile1 ==> before.push(pushed).contains(
                Primary::Move(Move::Move1(Movement(tile1, y))),
            ),
        forall|y: Tile|
            spec_tile_index(y) < b2 && y != tile1 && state.production.spec_get(tile1)
                >= 2 ==> before.push(pushed).contains(
                Primary::Move(Move::Move2(Movement(tile1, y), Movement(tile1, y))),
            ),
        forall|y: Tile|
            spec_tile_index(y) < b3 && y != tile1 && state.upgrades.move_evolved
                && state.production.spec_get(tile1) >= 3 ==> before.push(pushed).contains(
                Primary::Move(
                    Move::Move3(Movement(tile1, y), Movement(tile1, y), Movement(tile1, y)),
                ),
            ),
{
    assert forall|x: Tile, y: Tile|
        spec_tile_index(x) < a && x != y && state.production.spec_get(x) >= 1 implies before.push(
        pushed,
    ).contains(Primary::Move(Move::Move1(Movement(x, y)))) by {
        lemma_push_contains(before, pushed, Primary::Move(Move::Move1(Movement(x, y))));
    }
    assert forall|x: Tile, y: Tile|
        spec_tile_index(x) < a && x != y && state.production.spec_get(x) >= 2 implies before.push(
        pushed,
    ).contains(Primary::Move(Move::Move2(Movement(x, y), Movement(x, y)))) by {
        lemma_push_contains(
            before,
            pushed,
            Primary::Move(Move::Move2(Movement(x, y), Movement(x, y))),
        );
    }
    assert forall|x: Tile, y: Tile|
        spec_tile_index(x) < a && x != y && state.upgrades.move_evolved
            && state.production.spec_get(x) >= 3 implies before.push(pushed).contains(
        Primary::Move(Move::Move3(Movement(x, y), Movement(x, y), Movement(x, y))),
    ) by {
        lemma_push_contains(
            before,
            pushed,
            Primary::Move(Move::Move3(Movement(x, y), Movement(x, y), Movement(x, y))),
        );
    }
    assert forall|y: Tile| spec_tile_index(y) < b1 && y != tile1 implies before.push(
        pushed,
    ).contains(Primary::Move(Move::Move1(Movement(tile1, y)))) by {
        lemma_push_contains(before, pushed, Primary::Move(Move::Move1(Movement(tile1, y))));
    }
    assert forall|y: Tile|
        spec_tile_index(y) < b2 && y != tile1 && state.production.spec_get(tile1)
            >= 2 implies before.push(pushed).contains(
        Primary::Move(Move::Move2(Movement(tile1, y), Movement(tile1, y))),
    ) by {
        lemma_push_contains(
            before,
            pushed,
            Primary::Move(Move::Move2(Movement(tile1, y), Movement(tile1, y))),
        );
    }
    assert forall|y: Tile|
        spec_tile_index(y) < b3 && y != tile1 && state.upgrades.move_evolved
            && state.production.spec_get(tile1) >= 3 implies before.push(pushed).contains(
        Primary::Move(Move::Move3(Movement(tile1, y), Movement(tile1, y), Movement(tile1, y))),
    ) by {
        lemma_push_contains(
            before,
            pushed,
            Primary::Move(Move::Move3(Movement(tile1, y), Movement(tile1, y), Movement(tile1, y))),
        );
    }
}

/// Concatenation keeps every element either part already contains.
proof fn lemma_carry(before: Seq<Primary>, added: Seq<Primary>, full: Seq<Primary>)
    requires
        full == before + added,
    ensures
        forall|p: Primary| #[trigger] before.contains(p) ==> full.contains(p),
        forall|p: Primary| #[trigger] added.contains(p) ==> full.contains(p),
{
    assert forall|p: Primary| #[trigger] before.contains(p) implies full.contains(p) by {
        let i = choose|i: int| 0 <= i < before.len() && before[i] == p;
        assert(full[i] == p);
    }
    assert forall|p: Primary| #[trigger] added.contains(p) implies full.contains(p) by {
        let i = choose|i: int| 0 <= i < added.len() && added[i] == p;
        assert(full[before.len() + i] == p);
    }
}

/// A push keeps every element the sequence already contains, and adds
/// the pushed one.
proof fn lemma_carry_push(before: Seq<Primary>, x: Primary)
    ensures
        forall|p: Primary| #[trigger] before.contains(p) ==> before.push(x).contains(p),
        before.push(x).contains(x),
{
    assert forall|p: Primary| #[trigger] before.contains(p) implies before.push(x).contains(
        p,
    ) by {
        let i = choose|i: int| 0 <= i < before.len() && before[i] == p;
        assert(before.push(x)[i] == p);
    }
    assert(before.push(x)[before.len() as int] == x);
}

/// Every primary the enumerator yields from this state: each one legal,
/// each one of the catalogued shapes, and every catalogued shape
/// included.
#[verifier::rlimit(100)]
#[verifier::spinoff_prover]
fn get_primaries(state: &PlayerState) -> (r: Vec<Primary>)
    requires
        state.wf(),
    ensures
        forall|i: int| 0 <= i < r@.len() ==> spec_check_primary(*state, #[trigger] r@[i]),
        forall|i: int| 0 <= i < r@.len() ==> spec_primary_enumerated(*state, #[trigger] r@[i]),
        forall|p: Primary| spec_primary_enumerated(*state, p) ==> r@.contains(p),
{
    let mut primaries: Vec<Primary> = Vec::new();

    primaries.push(Primary::Tax);
    proof {
        assert(primaries@[0] == Primary::Tax);
        assert(primaries@.contains(Primary::Tax));
        assert(forall|i: int|
            0 <= i < primaries@.len() ==> spec_primary_enumerated(
                *state,
                #[trigger] primaries@[i],
            ));
    }

    if state.coins >= 1 {
        let ghost p0 = primaries@;
        let mut trades = get_trades();
        let ghost t = trades@;
        primaries.append(&mut trades);
        let ghost p1 = primaries@;
        primaries.push(Primary::Promote);
        let ghost p2 = primaries@;
        primaries.push(Primary::Bolster);
        let ghost p3 = primaries@;
        primaries.push(Primary::Enforce);
        proof {
            assert forall|r1: Resource, r2: Resource| primaries@.contains(
                Primary::Trade(r1, r2),
            ) by {
                let x = Primary::Trade(r1, r2);
                assert(t.contains(x));
                lemma_carry(p0, t, p1);
                lemma_push_contains(p1, Primary::Promote, x);
                lemma_push_contains(p2, Primary::Bolster, x);
                lemma_push_contains(p3, Primary::Enforce, x);
            }
            lemma_carry(p0, t, p1);
            lemma_push_contains(p1, Primary::Promote, Primary::Tax);
            lemma_push_contains(p2, Primary::Bolster, Primary::Tax);
            lemma_push_contains(p3, Primary::Enforce, Primary::Tax);
            assert(primaries@.contains(Primary::Tax));
            assert(p2[p2.len() - 1] == Primary::Promote);
            lemma_push_contains(p2, Primary::Bolster, Primary::Promote);
            lemma_push_contains(p3, Primary::Enforce, Primary::Promote);
            assert(primaries@.contains(Primary::Promote));
            assert(p3[p3.len() - 1] == Primary::Bolster);
            lemma_push_contains(p3, Primary::Enforce, Primary::Bolster);
            assert(primaries@.contains(Primary::Bolster));
            assert(primaries@[primaries@.len() - 1] == Primary::Enforce);
            assert(primaries@.contains(Primary::Enforce));
            assert forall|i: int|
                0 <= i < primaries@.len() implies spec_primary_enumerated(
                *state,
                #[trigger] primaries@[i],
            ) by {
                if i < p1.len() {
                    if i < p0.len() {
                        assert(primaries@[i] == p0[i]);
                    } else {
                        assert(primaries@[i] == t[i - p0.len()]);
                    }
                }
            }
        }
    }
    proof {
        assert(primaries@.contains(Primary::Tax));
        assert(state.coins >= 1 ==> primaries@.contains(Primary::Promote)
            && primaries@.contains(Primary::Bolster) && primaries@.contains(Primary::Enforce));
        assert(state.coins >= 1 ==> forall|r1: Resource, r2: Resource|
            primaries@.contains(Primary::Trade(r1, r2)));
        assert(forall|i: int|
            0 <= i < primaries@.len() ==> spec_primary_enumerated(
                *state,
                #[trigger] primaries@[i],
            ));
        assert(forall|i: int|
            0 <= i < primaries@.len() ==> spec_check_primary(*state, #[trigger] primaries@[i]));
    }
    let ghost s1 = primaries@;

    if state.can_produce() {
        let mut produces = get_produces(state);
        let ghost pr = produces@;
        primaries.append(&mut produces);
        proof {
            lemma_carry(s1, pr, primaries@);
            assert forall|x: Tile|
                state.production.spec_get(x) > 0 implies primaries@.contains(
                Primary::Produce(Produce::Produce1(x)),
            ) by {
                assert(pr.contains(Primary::Produce(Produce::Produce1(x))));
            }
            assert forall|x: Tile, y: Tile|
                spec_tile_index(x) < spec_tile_index(y) && state.production.spec_get(x) > 0
                    && state.production.spec_get(y) > 0 implies primaries@.contains(
                Primary::Produce(Produce::Produce2(x, y)),
            ) by {
                assert(pr.contains(Primary::Produce(Produce::Produce2(x, y))));
            }
            assert forall|x: Tile, y: Tile, z: Tile|
                state.upgrades.produce_evolved && spec_tile_index(x) < spec_tile_index(y)
                    && spec_tile_index(y) < spec_tile_index(z) && state.production.spec_get(x) > 0
                    && state.production.spec_get(y) > 0 && state.production.spec_get(z)
                    > 0 implies primaries@.contains(
                Primary::Produce(Produce::Produce3(x, y, z)),
            ) by {
                assert(pr.contains(Primary::Produce(Produce::Produce3(x, y, z))));
            }
            assert forall|i: int|
                0 <= i < primaries@.len() implies spec_primary_enumerated(
                *state,
                #[trigger] primaries@[i],
            ) by {
                if i < s1.len() {
                    assert(primaries@[i] == s1[i]);
                } else {
                    assert(primaries@[i] == pr[i - s1.len()]);
                }
            }
        }
    }
    proof {
        assert forall|x: Primary| s1.contains(x) implies primaries@.contains(x) by {
            let i = choose|i: int| 0 <= i < s1.len() && s1[i] == x;
            assert(primaries@[i] == x);
        }
        assert(primaries@.contains(Primary::Tax)) by {
            assert(s1.contains(Primary::Tax));
        }
    }
    let ghost s2 = primaries@;

    let mut moves = get_moves(state);
    let ghost mv = moves@;
    primaries.append(&mut moves);
    proof {
        lemma_carry(s2, mv, primaries@);
        assert forall|i: int|
            0 <= i < primaries@.len() implies spec_primary_enumerated(
            *state,
            #[trigger] primaries@[i],
        ) by {
            if i < s2.len() {
                assert(primaries@[i] == s2[i]);
            } else {
                assert(primaries@[i] == mv[i - s2.len()]);
            }
        }
        assert forall|i: int|
            0 <= i < primaries@.len() implies spec_check_primary(
            *state,
            #[trigger] primaries@[i],
        ) by {
            if i < s2.len() {
                assert(primaries@[i] == s2[i]);
            } else {
                assert(primaries@[i] == mv[i - s2.len()]);
            }
        }
    }

    proof {
        assert forall|p: Primary| spec_primary_enumerated(*state, p) implies primaries@.contains(
            p,
        ) by {
            match p {
                Primary::Tax => {
                    assert(s1.contains(Primary::Tax));
                    assert(s2.contains(Primary::Tax));
                }
                Primary::Trade(r1, r2) => {
                    assert(s1.contains(Primary::Trade(r1, r2)));
                    assert(s2.contains(Primary::Trade(r1, r2)));
                }
                Primary::Promote => {
                    assert(s1.contains(Primary::Promote));
                    assert(s2.contains(Primary::Promote));
                }
                Primary::Bolster => {
                    assert(s1.contains(Primary::Bolster));
                    assert(s2.contains(Primary::Bolster));
                }
                Primary::Enforce => {
                    assert(s1.contains(Primary::Enforce));
                    assert(s2.contains(Primary::Enforce));
                }
                Primary::Produce(pr2) => {
                    match pr2 {
                        Produce::Produce1(t) => {
                            assert(s2.contains(Primary::Produce(Produce::Produce1(t))));
                        }
                        Produce::Produce2(t1, t2) => {
                            assert(s2.contains(Primary::Produce(Produce::Produce2(t1, t2))));
                        }
                        Produce::Produce3(t1, t2, t3) => {
                            assert(s2.contains(Primary::Produce(Produce::Produce3(t1, t2, t3))));
                        }
                    }
                }
                Primary::Move(m) => {
                    match m {
                        Move::Move1(mm) => {
                            assert(mm == Movement(mm.0, mm.1));
                            assert(mv.contains(Primary::Move(Move::Move1(Movement(mm.0, mm.1)))));
                        }
                        Move::Move2(m1, m2) => {
                            assert(m1 == Movement(m1.0, m1.1));
                            assert(mv.contains(Primary::Move(
                                Move::Move2(Movement(m1.0, m1.1), Movement(m1.0, m1.1)),
                            )));
                        }
                        Move::Move3(m1, m2, m3) => {
                            assert(m1 == Movement(m1.0, m1.1));
                            assert(mv.contains(Primary::Move(
                                Move::Move3(
                                    Movement(m1.0, m1.1),
                                    Movement(m1.0, m1.1),
                                    Movement(m1.0, m1.1),
                                ),
                            )));
                        }
                    }
                }
            }
        }
    }
    primaries
}

pub open spec fn spec_primary_upgrade_at(k: int) -> PrimaryUpgrade {
    if k == 0 {
        PrimaryUpgrade::Move
    } else if k == 1 {
        PrimaryUpgrade::Produce
    } else if k == 2 {
        PrimaryUpgrade::Bolster
    } else if k == 3 {
        PrimaryUpgrade::Enforce
    } else if k == 4 {
        PrimaryUpgrade::Promote
    } else {
        PrimaryUpgrade::Tax
    }
}

pub open spec fn spec_primary_upgrade_index(u: PrimaryUpgrade) -> int {
    match u {
        PrimaryUpgrade::Move => 0,
        PrimaryUpgrade::Produce => 1,
        PrimaryUpgrade::Bolster => 2,
        PrimaryUpgrade::Enforce => 3,
        PrimaryUpgrade::Promote => 4,
        PrimaryUpgrade::Tax => 5,
    }
}

fn primary_upgrade_at(k: usize) -> (r: PrimaryUpgrade)
    requires
        k < 6,
    ensures
        r == spec_primary_upgrade_at(k as int),
{
    if k == 0 {
        PrimaryUpgrade::Move
    } else if k == 1 {
        PrimaryUpgrade::Produce
    } else if k == 2 {
        PrimaryUpgrade::Bolster
    } else if k == 3 {
        PrimaryUpgrade::Enforce
    } else if k == 4 {
        PrimaryUpgrade::Promote
    } else {
        PrimaryUpgrade::Tax
    }
}

pub open spec fn spec_secondary_upgrade_at(k: int) -> SecondaryUpgrade {
    if k == 0 {
        SecondaryUpgrade::Build
    } else if k == 1 {
        SecondaryUpgrade::Deploy
    } else if k == 2 {
        SecondaryUpgrade::Enlist
    } else {
        SecondaryUpgrade::Upgrade
    }
}

pub open spec fn spec_secondary_upgrade_index(u: SecondaryUpgrade) -> int {
    match u {
        SecondaryUpgrade::Build => 0,
        SecondaryUpgrade::Deploy => 1,
        SecondaryUpgrade::Enlist => 2,
        SecondaryUpgrade::Upgrade => 3,
    }
}

fn secondary_upgrade_at(k: usize) -> (r: SecondaryUpgrade)
    requires
        k < 4,
    ensures
        r == spec_secondary_upgrade_at(k as int),
{
    if k == 0 {
        SecondaryUpgrade::Build
    } else if k == 1 {
        SecondaryUpgrade::Deploy
    } else if k == 2 {
        SecondaryUpgrade::Enlist
    } else {
        SecondaryUpgrade::Upgrade
    }
}

/// A push to a secondary list keeps every element it already contains.
proof fn lemma_push_contains_secondary(s: Seq<Secondary>, x: Secondary, y: Secondary)
    requires
        s.contains(y),
    ensures
        s.push(x).contains(y),
{
    let i = choose|i: int| 0 <= i < s.len() && s[i] == y;
    assert(s.push(x)[i] == y);
}

/// The upgrade secondaries still open: the cartesian product of
/// not-yet-evolved primaries and categories with evolution slots left,
/// all of it, nothing else, and none of it twice.
fn get_upgrades(state: &PlayerState) -> (r: Vec<Secondary>)
    ensures
        forall|i: int|
            0 <= i < r@.len() ==> spec_secondary_available(*state, #[trigger] r@[i]) && r@[i]
                matches Secondary::Upgrade(_, _),
        r@.no_duplicates(),
        forall|pu: PrimaryUpgrade, su: SecondaryUpgrade|
            state.upgrades.spec_can_upgrade_primary(pu)
                && state.upgrades.spec_can_upgrade_secondary(su) ==> r@.contains(
                Secondary::Upgrade(pu, su),
            ),
{
    let mut upgrades: Vec<Secondary> = Vec::new();
    let mut i: usize = 0;
    while i < 6
        invariant
            0 <= i <= 6,
            forall|k: int|
                0 <= k < upgrades@.len() ==> spec_secondary_available(
                    *state,
                    #[trigger] upgrades@[k],
                ) && upgrades@[k] matches Secondary::Upgrade(_, _),
            forall|pu: PrimaryUpgrade, su: SecondaryUpgrade|
                spec_primary_upgrade_index(pu) < i && state.upgrades.spec_can_upgrade_primary(pu)
                    && state.upgrades.spec_can_upgrade_secondary(su) ==> upgrades@.contains(
                    Secondary::Upgrade(pu, su),
                ),
            upgrades@.no_duplicates(),
            forall|pu: PrimaryUpgrade, su: SecondaryUpgrade|
                #[trigger] upgrades@.contains(Secondary::Upgrade(pu, su))
                    ==> spec_primary_upgrade_index(pu) < i,
        decreases 6 - i,
    {
        let prim = primary_upgrade_at(i);
        if state.upgrades.can_upgrade_primary(prim) {
            let mut j: usize = 0;
            while j < 4
                invariant
                    i < 6,
                    0 <= j <= 4,
                    prim == spec_primary_upgrade_at(i as int),
                    spec_primary_upgrade_index(prim) == i as int,
                    state.upgrades.spec_can_upgrade_primary(prim),
                    forall|k: int|
                        0 <= k < upgrades@.len() ==> spec_secondary_available(
                            *state,
                            #[trigger] upgrades@[k],
                        ) && upgrades@[k] matches Secondary::Upgrade(_, _),
                    forall|pu: PrimaryUpgrade, su: SecondaryUpgrade|
                        spec_primary_upgrade_index(pu) < i
                            && state.upgrades.spec_can_upgrade_primary(pu)
                            && state.upgrades.spec_can_upgrade_secondary(su)
                            ==> upgrades@.contains(Secondary::Upgrade(pu, su)),
                    forall|su: SecondaryUpgrade|
                        spec_secondary_upgrade_index(su) < j
                            && state.upgrades.spec_can_upgrade_secondary(su)
                            ==> upgrades@.contains(Secondary::Upgrade(prim, su)),
                    upgrades@.no_duplicates(),
                    forall|pu: PrimaryUpgrade, su: SecondaryUpgrade|
                        #[trigger] upgrades@.contains(Secondary::Upgrade(pu, su)) ==> (
                        spec_primary_upgrade_index(pu) < i || (pu == prim
                            && spec_secondary_upgrade_index(su) < j)),
                decreases 4 - j,
            {
                let sec = secondary_upgrade_at(j);
                if state.upgrades.can_upgrade_secondary(sec) {
                    let ghost before = upgrades@;
                    proof {
                        assert(!before.contains(Secondary::Upgrade(prim, sec)));
                        lemma_push_no_duplicates(before, Secondary::Upgrade(prim, sec));
                    }
                    upgrades.push(Secondary::Upgrade(prim, sec));
                    proof {
                        assert(upgrades@[upgrades@.len() - 1] == Secondary::Upgrade(prim, sec));
                        assert forall|pu: PrimaryUpgrade, su: SecondaryUpgrade|
                            #[trigger] upgrades@.contains(Secondary::Upgrade(pu, su)) implies (
                            spec_primary_upgrade_index(pu) < i || (pu == prim
                                && spec_secondary_upgrade_index(su) < j + 1)) by {
                            let w = choose|w: int|
                                0 <= w < upgrades@.len() && upgrades@[w] == Secondary::Upgrade(
                                    pu,
                                    su,
                                );
                            if w < before.len() {
                                assert(before.contains(Secondary::Upgrade(pu, su)));
                            }
                        }
                        assert forall|pu: PrimaryUpgrade, su: SecondaryUpgrade|
                            spec_primary_upgrade_index(pu) < i
                                && state.upgrades.spec_can_upgrade_primary(pu)
                                && state.upgrades.spec_can_upgrade_secondary(su)
                                implies upgrades@.contains(Secondary::Upgrade(pu, su)) by {
                            lemma_push_contains_secondary(
                                before,
                                Secondary::Upgrade(prim, sec),
                                Secondary::Upgrade(pu, su),
                            );
                        }
                        assert forall|su: SecondaryUpgrade|
                            spec_secondary_upgrade_index(su) < j + 1
                                && state.upgrades.spec_can_upgrade_secondary(su)
                                implies upgrades@.contains(Secondary::Upgrade(prim, su)) by {
                            if spec_secondary_upgrade_index(su) < j as int {
                                lemma_push_contains_secondary(
                                    before,
                                    Secondary::Upgrade(prim, sec),
                                    Secondary::Upgrade(prim, su),
                                );
                            } else {
                                assert(su == sec);
                            }
                        }
                    }
                } else {
                    proof {
                        assert forall|su: SecondaryUpgrade|
                            spec_secondary_upgrade_index(su) < j + 1
                                && state.upgrades.spec_can_upgrade_secondary(su)
                                implies upgrades@.contains(Secondary::Upgrade(prim, su)) by {
                            if spec_secondary_upgrade_index(su) == j as int {
                                assert(su == sec);
                                assert(false);
                            }
                        }
                        assert forall|pu: PrimaryUpgrade, su: SecondaryUpgrade|
                            #[trigger] upgrades@.contains(Secondary::Upgrade(pu, su)) implies (
                            spec_primary_upgrade_index(pu) < i || (pu == prim
                                && spec_secondary_upgrade_index(su) < j + 1)) by {
                        }
                    }
                }
                j = j + 1;
            }
        }
        proof {
            assert forall|pu: PrimaryUpgrade, su: SecondaryUpgrade|
                spec_primary_upgrade_index(pu) < i + 1 && state.upgrades.spec_can_upgrade_primary(
                    pu,
                ) && state.upgrades.spec_can_upgrade_secondary(su) implies upgrades@.contains(
                Secondary::Upgrade(pu, su),
            ) by {
                if spec_primary_upgrade_index(pu) == i as int {
                    assert(pu == prim);
                    assert(spec_secondary_upgrade_index(su) < 4);
                }
            }
            assert forall|pu: PrimaryUpgrade, su: SecondaryUpgrade|
                #[trigger] upgrades@.contains(Secondary::Upgrade(pu, su)) implies (
                spec_primary_upgrade_index(pu) < i + 1) by {
            }
        }
        i = i + 1;
    }
    proof {
        assert forall|pu: PrimaryUpgrade, su: SecondaryUpgrade|
            state.upgrades.spec_can_upgrade_primary(pu) && state.upgrades.spec_can_upgrade_secondary(
                su,
            ) implies upgrades@.contains(Secondary::Upgrade(pu, su)) by {
            assert(spec_primary_upgrade_index(pu) < 6);
        }
    }
    upgrades
}

pub open spec fn spec_mech_at(k: int) -> Mech {
    if k == 0 {
        Mech::First
    } else if k == 1 {
        Mech::Second
    } else if k == 2 {
        Mech::Third
    } else {
        Mech::Fourth
    }
}

fn mech_at(k: usize) -> (r: Mech)
    requires
        k < 4,
    ensures
        r == spec_mech_at(k as int),
        crate::game::mechs::spec_mech_index(r) == k as int,
{
    if k == 0 {
        Mech::First
    } else if k == 1 {
        Mech::Second
    } else if k == 2 {
        Mech::Third
    } else {
        Mech::Fourth
    }
}

/// The deployments still open: one for every undeployed mech, each
/// offered once.
fn get_deploys(state: &PlayerState) -> (r: Vec<Secondary>)
    ensures
        forall|i: int|
            0 <= i < r@.len() ==> spec_secondary_available(*state, #[trigger] r@[i]) && r@[i]
                matches Secondary::Deploy(_),
        forall|m: Mech|
            state.mechs.spec_can_deploy(m) ==> r@.contains(Secondary::Deploy(m)),
        r@.no_duplicates(),
{
    let mut deploys: Vec<Secondary> = Vec::new();
    let mut k: usize = 0;
    while k < 4
        invariant
            0 <= k <= 4,
            forall|i: int|
                0 <= i < deploys@.len() ==> spec_secondary_available(
                    *state,
                    #[trigger] deploys@[i],
                ) && deploys@[i] matches Secondary::Deploy(_),
            forall|m: Mech|
                crate::game::mechs::spec_mech_index(m) < k && state.mechs.spec_can_deploy(m)
                    ==> deploys@.contains(Secondary::Deploy(m)),
            deploys@.no_duplicates(),
            forall|m: Mech|
                #[trigger] deploys@.contains(Secondary::Deploy(m))
                    ==> crate::game::mechs::spec_mech_index(m) < k,
        decreases 4 - k,
    {
        let mech = mech_at(k);
        let ghost before = deploys@;
        if state.mechs.can_deploy(mech) {
            proof {
                assert(!before.contains(Secondary::Deploy(mech)));
                lemma_push_no_duplicates(before, Secondary::Deploy(mech));
            }
            deploys.push(Secondary::Deploy(mech));
            proof {
                assert(deploys@[deploys@.len() - 1] == Secondary::Deploy(mech));
                assert forall|m: Mech|
                    #[trigger] deploys@.contains(Secondary::Deploy(m)) implies (
                    crate::game::mechs::spec_mech_index(m) < k + 1) by {
                    let w = choose|w: int|
                        0 <= w < deploys@.len() && deploys@[w] == Secondary::Deploy(m);
                    if w < before.len() {
                        assert(before.contains(Secondary::Deploy(m)));
                    }
                }
            }
        }
        proof {
            assert forall|m: Mech|
                crate::game::mechs::spec_mech_index(m) < k + 1 && state.mechs.spec_can_deploy(
                    m,
                ) implies deploys@.contains(Secondary::Deploy(m)) by {
                if crate::game::mechs::spec_mech_index(m) < k as int {
                    if deploys@ != before {
                        lemma_push_contains_secondary(
                            before,
                            Secondary::Deploy(mech),
                            Secondary::Deploy(m),
                        );
                    }
                } else {
                    assert(m == mech);
                }
            }
        }
        k = k + 1;
    }
    proof {
        assert forall|m: Mech| state.mechs.spec_can_deploy(m) implies deploys@.contains(
            Secondary::Deploy(m),
        ) by {
            assert(crate::game::mechs::spec_mech_index(m) < 4);
        }
    }
    deploys
}

pub open spec fn spec_plain_building_at(k: int) -> Building {
    if k == 0 {
        Building::Tunnel
    } else if k == 1 {
        Building::Armory
    } else {
        Building::Monument
    }
}

fn plain_building_at(k: usize) -> (r: Building)
    requires
        k < 3,
    ensures
        r == spec_plain_building_at(k as int),
{
    if k == 0 {
        Building::Tunnel
    } else if k == 1 {
        Building::Armory
    } else {
        Building::Monument
    }
}

pub open spec fn spec_plain_building_index(b: Building) -> int {
    match b {
        Building::Tunnel => 0,
        Building::Armory => 1,
        Building::Monument => 2,
        Building::Mill(_) => 3,
    }
}

/// The buildings still open, every one of them exactly once; an unbuilt
/// mill expands into one variant per candidate tile.
fn get_builds(state: &PlayerState) -> (r: Vec<Secondary>)
    ensures
        forall|i: int|
            0 <= i < r@.len() ==> spec_secondary_available(*state, #[trigger] r@[i]) && r@[i]
                matches Secondary::Build(_),
        forall|b: Building|
            state.buildings.spec_can_build(b) ==> r@.contains(Secondary::Build(b)),
        r@.no_duplicates(),
{
    let mut builds: Vec<Secondary> = Vec::new();
    let mut k: usize = 0;
    while k < 3
        invariant
            0 <= k <= 3,
            forall|i: int|
                0 <= i < builds@.len() ==> spec_secondary_available(
                    *state,
                    #[trigger] builds@[i],
                ) && builds@[i] matches Secondary::Build(_),
            forall|b: Building|
                spec_plain_building_index(b) < k && state.buildings.spec_can_build(b)
                    ==> builds@.contains(Secondary::Build(b)),
            builds@.no_duplicates(),
            forall|b: Building|
                #[trigger] builds@.contains(Secondary::Build(b)) ==> spec_plain_building_index(b)
                    < k,
        decreases 3 - k,
    {
        let building = plain_building_at(k);
        let ghost before = builds@;
        if state.buildings.can_build(building) {
            proof {
                assert(!before.contains(Secondary::Build(building)));
                lemma_push_no_duplicates(before, Secondary::Build(building));
            }
            builds.push(Secondary::Build(building));
            proof {
                assert(builds@[builds@.len() - 1] == Secondary::Build(building));
                assert forall|b: Building|
                    #[trigger] builds@.contains(Secondary::Build(b)) implies (
                    spec_plain_building_index(b) < k + 1) by {
                    let w = choose|w: int|
                        0 <= w < builds@.len() && builds@[w] == Secondary::Build(b);
                    if w < before.len() {
                        assert(before.contains(Secondary::Build(b)));
                    }
                }
            }
        }
        proof {
            assert forall|b: Building|
                spec_plain_building_index(b) < k + 1 && state.buildings.spec_can_build(
                    b,
                ) implies builds@.contains(Secondary::Build(b)) by {
                if spec_plain_building_index(b) < k as int {
                    if builds@ != before {
                        lemma_push_contains_secondary(
                            before,
                            Secondary::Build(building),
                            Secondary::Build(b),
                        );
                    }
                } else {
                    assert(b == building);
                }
            }
        }
        k = k + 1;
    }
    if !state.buildings.mill_built {
        let mut t: usize = 0;
        while t < 5
            invariant
                0 <= t <= 5,
                !state.buildings.mill_built,
                forall|i: int|
                    0 <= i < builds@.len() ==> spec_secondary_available(
                        *state,
                        #[trigger] builds@[i],
                    ) && builds@[i] matches Secondary::Build(_),
                forall|b: Building|
                    spec_plain_building_index(b) < 3 && state.buildings.spec_can_build(b)
                        ==> builds@.contains(Secondary::Build(b)),
                forall|x: Tile|
                    spec_tile_index(x) < t ==> builds@.contains(
                        Secondary::Build(Building::Mill(x)),
                    ),
                builds@.no_duplicates(),
                forall|b: Building|
                    #[trigger] builds@.contains(Secondary::Build(b)) ==> (match b {
                        Building::Mill(x) => spec_tile_index(x) < t,
                        _ => spec_plain_building_index(b) < 3,
                    }),
            decreases 5 - t,
        {
            let tile = tile_at(t);
            let ghost before = builds@;
            proof {
                assert(!before.contains(Secondary::Build(Building::Mill(tile))));
                lemma_push_no_duplicates(before, Secondary::Build(Building::Mill(tile)));
            }
            builds.push(Secondary::Build(Building::Mill(tile)));
            proof {
                assert(builds@[builds@.len() - 1] == Secondary::Build(Building::Mill(tile)));
                assert forall|b: Building|
                    #[trigger] builds@.contains(Secondary::Build(b)) implies (match b {
                    Building::Mill(x) => spec_tile_index(x) < t + 1,
                    _ => spec_plain_building_index(b) < 3,
                }) by {
                    let w = choose|w: int|
                        0 <= w < builds@.len() && builds@[w] == Secondary::Build(b);
                    if w < before.len() {
                        assert(before.contains(Secondary::Build(b)));
                    }
                }
                assert forall|b: Building|
                    spec_plain_building_index(b) < 3 && state.buildings.spec_can_build(
                        b,
                    ) implies builds@.contains(Secondary::Build(b)) by {
                    lemma_push_contains_secondary(
                        before,
                        Secondary::Build(Building::Mill(tile)),
                        Secondary::Build(b),
                    );
                }
                assert forall|x: Tile| spec_tile_index(x) < t + 1 implies builds@.contains(
                    Secondary::Build(Building::Mill(x)),
                ) by {
                    if spec_tile_index(x) < t as int {
                        lemma_push_contains_secondary(
                            before,
                            Secondary::Build(Building::Mill(tile)),
                            Secondary::Build(Building::Mill(x)),
                        );
                    } else {
                        assert(x == tile);
                    }
                }
            }
            t = t + 1;
        }
    }
    proof {
        assert forall|b: Building| state.buildings.spec_can_build(b) implies builds@.contains(
            Secondary::Build(b),
        ) by {
            match b {
                Building::Mill(x) => {
                    assert(spec_tile_index(x) < 5);
                }
                _ => {
                    assert(spec_plain_building_index(b) < 3);
                }
            }
        }
    }
    builds
}

pub open spec fn spec_recruit_at(k: int) -> Recruit {
    if k == 0 {
        Recruit::Card
    } else if k == 1 {
        Recruit::Coin
    } else if k == 2 {
        Recruit::Power
    } else {
        Recruit::Popularity
    }
}

pub open spec fn spec_recruit_index(rec: Recruit) -> int {
    match rec {
        Recruit::Card => 0,
        Recruit::Coin => 1,
        Recruit::Power => 2,
        Recruit::Popularity => 3,
    }
}

fn recruit_at(k: usize) -> (r: Recruit)
    requires
        k < 4,
    ensures
        r == spec_recruit_at(k as int),
        spec_recruit_index(r) == k as int,
{
    if k == 0 {
        Recruit::Card
    } else if k == 1 {
        Recruit::Coin
    } else if k == 2 {
        Recruit::Power
    } else {
        Recruit::Popularity
    }
}

/// A push to a recruit list keeps every element it already contains.
proof fn lemma_push_contains_recruit(s: Seq<Recruit>, x: Recruit, y: Recruit)
    requires
        s.contains(y),
    ensures
        s.push(x).contains(y),
{
    let i = choose|i: int| 0 <= i < s.len() && s[i] == y;
    assert(s.push(x)[i] == y);
}

/// The enlistments still open: the full cartesian product of unfilled
/// secondary and one-time recruit slots, nothing else, and no pair
/// twice.
fn get_enlists(state: &PlayerState) -> (r: Vec<Secondary>)
    ensures
        forall|i: int|
            0 <= i < r@.len() ==> spec_secondary_available(*state, #[trigger] r@[i]) && r@[i]
                matches Secondary::Enlist(_, _),
        forall|s: Recruit, o: Recruit|
            !state.recruits.spec_is_secondary_recruited(s)
                && !state.recruits.spec_is_onetime_recruited(o) ==> r@.contains(
                Secondary::Enlist(s, o),
            ),
        r@.no_duplicates(),
{
    let mut secondary: Vec<Recruit> = Vec::new();
    let mut k: usize = 0;
    while k < 4
        invariant
            0 <= k <= 4,
            forall|i: int|
                0 <= i < secondary@.len() ==> !state.recruits.spec_is_secondary_recruited(
                    #[trigger] secondary@[i],
                ),
            forall|rec: Recruit|
                spec_recruit_index(rec) < k && !state.recruits.spec_is_secondary_recruited(rec)
                    ==> secondary@.contains(rec),
            secondary@.no_duplicates(),
            forall|a: int|
                0 <= a < secondary@.len() ==> spec_recruit_index(#[trigger] secondary@[a]) < k,
        decreases 4 - k,
    {
        let rec = recruit_at(k);
        let ghost before = secondary@;
        if !state.recruits.is_secondary_recruited(rec) {
            proof {
                assert(!before.contains(rec)) by {
                    if before.contains(rec) {
                        let w = choose|w: int| 0 <= w < before.len() && before[w] == rec;
                        assert(spec_recruit_index(before[w]) < k);
                    }
                }
                lemma_push_no_duplicates(before, rec);
            }
            secondary.push(rec);
            proof {
                assert(secondary@[secondary@.len() - 1] == rec);
            }
        }
        proof {
            assert forall|x: Recruit|
                spec_recruit_index(x) < k + 1 && !state.recruits.spec_is_secondary_recruited(
                    x,
                ) implies secondary@.contains(x) by {
                if spec_recruit_index(x) < k as int {
                    if secondary@ != before {
                        lemma_push_contains_recruit(before, rec, x);
                    }
                } else {
                    assert(x == rec);
                }
            }
        }
        k = k + 1;
    }

    let mut onetime: Vec<Recruit> = Vec::new();
    let mut k2: usize = 0;
    while k2 < 4
        invariant
            0 <= k2 <= 4,
            forall|i: int|
                0 <= i < onetime@.len() ==> !state.recruits.spec_is_onetime_recruited(
                    #[trigger] onetime@[i],
                ),
            forall|rec: Recruit|
                spec_recruit_index(rec) < k2 && !state.recruits.spec_is_onetime_recruited(rec)
                    ==> onetime@.contains(rec),
            onetime@.no_duplicates(),
            forall|a: int|
                0 <= a < onetime@.len() ==> spec_recruit_index(#[trigger] onetime@[a]) < k2,
        decreases 4 - k2,
    {
        let rec = recruit_at(k2);
        let ghost before = onetime@;
        if !state.recruits.is_onetime_recruited(rec) {
            proof {
                assert(!before.contains(rec)) by {
                    if before.contains(rec) {
                        let w = choose|w: int| 0 <= w < before.len() && before[w] == rec;
                        assert(spec_recruit_index(before[w]) < k2);
                    }
                }
                lemma_push_no_duplicates(before, rec);
            }
            onetime.push(rec);
            proof {
                assert(onetime@[onetime@.len() - 1] == rec);
            }
        }
        proof {
            assert forall|x: Recruit|
                spec_recruit_index(x) < k2 + 1 && !state.recruits.spec_is_onetime_recruited(
                    x,
                ) implies onetime@.contains(x) by {
                if spec_recruit_index(x) < k2 as int {
                    if onetime@ != before {
                        lemma_push_contains_recruit(before, rec, x);
                    }
                } else {
                    assert(x == rec);
                }
            }
        }
        k2 = k2 + 1;
    }

    let ghost sec_ok = secondary@;
    let ghost one_ok = onetime@;

    let mut recruits: Vec<Secondary> = Vec::new();
    let mut i: usize = 0;
    while i < secondary.len()
        invariant
            secondary@ == sec_ok,
            onetime@ == one_ok,
            0 <= i <= secondary@.len(),
            forall|k3: int|
                0 <= k3 < secondary@.len() ==> !state.recruits.spec_is_secondary_recruited(
                    #[trigger] secondary@[k3],
                ),
            forall|k3: int|
                0 <= k3 < onetime@.len() ==> !state.recruits.spec_is_onetime_recruited(
                    #[trigger] onetime@[k3],
                ),
            forall|k3: int|
                0 <= k3 < recruits@.len() ==> spec_secondary_available(
                    *state,
                    #[trigger] recruits@[k3],
                ) && recruits@[k3] matches Secondary::Enlist(_, _),
            forall|a: int, b: int|
                0 <= a < i && 0 <= b < onetime@.len() ==> recruits@.contains(
                    Secondary::Enlist(secondary@[a], onetime@[b]),
                ),
            secondary@.no_duplicates(),
            onetime@.no_duplicates(),
            recruits@.no_duplicates(),
            forall|s: Recruit, o: Recruit|
                #[trigger] recruits@.contains(Secondary::Enlist(s, o)) ==> exists|a: int, b: int|
                    0 <= a < i && 0 <= b < onetime@.len() && s == secondary@[a] && o
                        == onetime@[b],
        decreases secondary@.len() - i,
    {
        let sec = secondary[i];
        let mut j: usize = 0;
        while j < onetime.len()
            invariant
                secondary@ == sec_ok,
                onetime@ == one_ok,
                i < secondary@.len(),
                0 <= j <= onetime@.len(),
                sec == secondary@[i as int],
                forall|k3: int|
                    0 <= k3 < secondary@.len() ==> !state.recruits.spec_is_secondary_recruited(
                        #[trigger] secondary@[k3],
                    ),
                forall|k3: int|
                    0 <= k3 < onetime@.len() ==> !state.recruits.spec_is_onetime_recruited(
                        #[trigger] onetime@[k3],
                    ),
                forall|k3: int|
                    0 <= k3 < recruits@.len() ==> spec_secondary_available(
                        *state,
                        #[trigger] recruits@[k3],
                    ) && recruits@[k3] matches Secondary::Enlist(_, _),
                forall|a: int, b: int|
                    0 <= a < i && 0 <= b < onetime@.len() ==> recruits@.contains(
                        Secondary::Enlist(secondary@[a], onetime@[b]),
                    ),
                forall|b: int|
                    0 <= b < j ==> recruits@.contains(Secondary::Enlist(sec, onetime@[b])),
                secondary@.no_duplicates(),
                onetime@.no_duplicates(),
                recruits@.no_duplicates(),
                forall|s: Recruit, o: Recruit|
                    #[trigger] recruits@.contains(Secondary::Enlist(s, o)) ==> exists|
                        a: int,
                        b: int,
                    |
                        0 <= a <= i && 0 <= b < onetime@.len() && s == secondary@[a] && o
                            == onetime@[b] && (a < i || b < j),
            decreases onetime@.len() - j,
        {
            let once = onetime[j];
            let ghost before = recruits@;
            proof {
                assert(!before.contains(Secondary::Enlist(sec, once))) by {
                    if before.contains(Secondary::Enlist(sec, once)) {
                        let (a, b) = choose|a: int, b: int|
                            0 <= a <= i && 0 <= b < onetime@.len() && sec == secondary@[a] && once
                                == onetime@[b] && (a < i || b < j);
                        if a < i as int {
                            assert(secondary@[a] == secondary@[i as int]);
                        } else {
                            assert(onetime@[b] == onetime@[j as int]);
                        }
                    }
                }
                lemma_push_no_duplicates(before, Secondary::Enlist(sec, once));
            }
            recruits.push(Secondary::Enlist(sec, once));
            proof {
                assert(recruits@[recruits@.len() - 1] == Secondary::Enlist(sec, once));
                assert forall|s: Recruit, o: Recruit|
                    #[trigger] recruits@.contains(Secondary::Enlist(s, o)) implies exists|
                        a: int,
                        b: int,
                    |
                        0 <= a <= i && 0 <= b < onetime@.len() && s == secondary@[a] && o
                            == onetime@[b] && (a < i || b < j + 1) by {
                    let w = choose|w: int|
                        0 <= w < recruits@.len() && recruits@[w] == Secondary::Enlist(s, o);
                    if w < before.len() {
                        assert(before.contains(Secondary::Enlist(s, o)));
                        let (a, b) = choose|a: int, b: int|
                            0 <= a <= i && 0 <= b < onetime@.len() && s == secondary@[a] && o
                                == onetime@[b] && (a < i || b < j);
                        assert(0 <= a <= i && 0 <= b < onetime@.len() && s == secondary@[a] && o
                            == onetime@[b] && (a < i || b < j + 1));
                    } else {
                        assert(s == sec && o == once);
                        assert(s == secondary@[i as int] && o == onetime@[j as int]);
                        assert(0 <= (j as int) && (j as int) < onetime@.len());
                        assert((j as int) < j + 1);
                    }
                }
                assert forall|a: int, b: int|
                    0 <= a < i && 0 <= b < onetime@.len() implies recruits@.contains(
                    Secondary::Enlist(secondary@[a], onetime@[b]),
                ) by {
                    lemma_push_contains_secondary(
                        before,
                        Secondary::Enlist(sec, once),
                        Secondary::Enlist(secondary@[a], onetime@[b]),
                    );
                }
                assert forall|b: int| 0 <= b < j + 1 implies recruits@.contains(
                    Secondary::Enlist(sec, onetime@[b]),
                ) by {
                    if b < j as int {
                        lemma_push_contains_secondary(
                            before,
                            Secondary::Enlist(sec, once),
                            Secondary::Enlist(sec, onetime@[b]),
                        );
                    } else {
                        assert(onetime@[b] == once);
                    }
                }
            }
            j = j + 1;
        }
        proof {
            assert forall|s: Recruit, o: Recruit|
                #[trigger] recruits@.contains(Secondary::Enlist(s, o)) implies exists|
                    a: int,
                    b: int,
                |
                    0 <= a < i + 1 && 0 <= b < onetime@.len() && s == secondary@[a] && o
                        == onetime@[b] by {
                let (a, b) = choose|a: int, b: int|
                    0 <= a <= i && 0 <= b < onetime@.len() && s == secondary@[a] && o
                        == onetime@[b] && (a < i || b < onetime@.len() as int);
                assert(0 <= a < i + 1 && 0 <= b < onetime@.len() && s == secondary@[a] && o
                    == onetime@[b]);
            }
        }
        i = i + 1;
    }

    proof {
        assert forall|s: Recruit, o: Recruit|
            !state.recruits.spec_is_secondary_recruited(s)
                && !state.recruits.spec_is_onetime_recruited(o) implies recruits@.contains(
            Secondary::Enlist(s, o),
        ) by {
            assert(spec_recruit_index(s) < 4);
            assert(spec_recruit_index(o) < 4);
            assert(sec_ok.contains(s));
            assert(one_ok.contains(o));
            let a = choose|a: int| 0 <= a < sec_ok.len() && sec_ok[a] == s;
            let b = choose|b: int| 0 <= b < one_ok.len() && one_ok[b] == o;
            assert(recruits@.contains(Secondary::Enlist(sec_ok[a], one_ok[b])));
        }
    }
    recruits
}

/// The still-available secondaries of one category: every available
/// choice of that category, and only those.
fn get_secondaries(state: &PlayerState, secondary: SecondaryAction) -> (r: Vec<Secondary>)
    ensures
        forall|i: int|
            0 <= i < r@.len() ==> spec_secondary_available(*state, #[trigger] r@[i])
                && spec_map_secondary(r@[i]) == secondary,
        forall|sec: Secondary|
            spec_secondary_available(*state, sec) && spec_map_secondary(sec) == secondary
                ==> r@.contains(sec),
{
    let r = match secondary {
        SecondaryAction::Upgrade => get_upgrades(state),
        SecondaryAction::Deploy => get_deploys(state),
        SecondaryAction::Build => get_builds(state),
        SecondaryAction::Enlist => get_enlists(state),
    };
    proof {
        assert forall|sec: Secondary|
            spec_secondary_available(*state, sec) && spec_map_secondary(sec)
                == secondary implies r@.contains(sec) by {
            match sec {
                Secondary::Upgrade(pu, su) => {
                    assert(r@.contains(Secondary::Upgrade(pu, su)));
                }
                Secondary::Deploy(m) => {
                    assert(r@.contains(Secondary::Deploy(m)));
                }
                Secondary::Build(b) => {
                    assert(r@.contains(Secondary::Build(b)));
                }
                Secondary::Enlist(s, o) => {
                    assert(r@.contains(Secondary::Enlist(s, o)));
                }
            }
        }
    }
    r
}

/// The paired descriptors the enumerator promises for a primary: the
/// secondary is the player-mat-linked category, its cost is affordable
/// after the primary is hypothetically applied, and the specific choice
/// is still available then.
pub open spec fn spec_secondary_enumerated(s: PlayerState, p: Primary, sec: Secondary) -> bool {
    let new = spec_turn(s, TurnMask::PrimaryOnly(p));
    &&& spec_map_secondary(sec) == s.spec_get_secondary(spec_map_primary(p))
    &&& spec_check_secondary_cost(new, spec_map_secondary(sec))
    &&& spec_secondary_available(new, sec)
}

/// Enumerates the legal action space of a state.
///
/// Every returned descriptor is sound: its primary passes the checker,
/// and an attached secondary is the linked category, affordable and
/// still available after the primary is hypothetically applied. In the
/// other direction, the list contains every primary-only descriptor of
/// `spec_primary_enumerated`, and every such primary paired with every
/// secondary of `spec_secondary_enumerated`. The checker is wider than
/// this catalogue: it also accepts shapes the enumeration deliberately
/// leaves out, such as multi-step moves over two different tile pairs
/// or producing at a tile without a worker.
#[verifier::rlimit(100)]
#[verifier::spinoff_prover]
pub fn get_actions(state: &PlayerState) -> (r: Vec<TurnMask>)
    requires
        state.wf(),
    ensures
        forall|i: int| 0 <= i < r@.len() ==> spec_mask_sound(*state, #[trigger] r@[i]),
        forall|p: Primary|
            spec_primary_enumerated(*state, p) ==> r@.contains(TurnMask::PrimaryOnly(p)),
        forall|p: Primary, sec: Secondary|
            spec_primary_enumerated(*state, p) && spec_secondary_enumerated(*state, p, sec)
                ==> r@.contains(TurnMask::PrimaryAndSecondary(p, sec)),
{
    let primaries = get_primaries(state);
    let mut actions: Vec<TurnMask> = Vec::new();
    let mut i: usize = 0;
    while i < primaries.len()
        invariant
            state.wf(),
            0 <= i <= primaries@.len(),
            forall|k: int|
                0 <= k < primaries@.len() ==> spec_check_primary(*state, #[trigger] primaries@[k]),
            forall|p: Primary| spec_primary_enumerated(*state, p) ==> primaries@.contains(p),
            forall|k: int|
                0 <= k < actions@.len() ==> spec_mask_sound(*state, #[trigger] actions@[k]),
            forall|k: int|
                0 <= k < i ==> actions@.contains(TurnMask::PrimaryOnly(#[trigger] primaries@[k])),
            forall|k: int, sec: Secondary|
                0 <= k < i && #[trigger] spec_secondary_enumerated(*state, primaries@[k], sec)
                    ==> actions@.contains(
                    TurnMask::PrimaryAndSecondary(primaries@[k], sec),
                ),
        decreases primaries@.len() - i,
    {
        let primary = primaries[i];
        let primary_only = TurnMask::PrimaryOnly(primary);
        let ghost before = actions@;
        actions.push(primary_only);
        proof {
            assert forall|k: int| 0 <= k < i + 1 implies actions@.contains(
                TurnMask::PrimaryOnly(#[trigger] primaries@[k]),
            ) by {
                if k < i as int {
                    lemma_push_contains_mask(
                        before,
                        primary_only,
                        TurnMask::PrimaryOnly(primaries@[k]),
                    );
                } else {
                    assert(actions@[actions@.len() - 1] == primary_only);
                }
            }
            assert forall|k: int, sec: Secondary|
                0 <= k < i && #[trigger] spec_secondary_enumerated(
                    *state,
                    primaries@[k],
                    sec,
                ) implies actions@.contains(
                TurnMask::PrimaryAndSecondary(primaries@[k], sec),
            ) by {
                lemma_push_contains_mask(
                    before,
                    primary_only,
                    TurnMask::PrimaryAndSecondary(primaries@[k], sec),
                );
            }
        }

        let secondary = state.get_secondary(map_primary(&primary));
        let new_state = turn(*state, &primary_only);
        if check_secondary_cost(&new_state, secondary) {
            let secondaries = get_secondaries(&new_state, secondary);
            let mut j: usize = 0;
            while j < secondaries.len()
                invariant
                    state.wf(),
                    i < primaries@.len(),
                    primary == primaries@[i as int],
                    spec_check_primary(*state, primary),
                    primary_only == TurnMask::PrimaryOnly(primary),
                    new_state == spec_turn(*state, primary_only),
                    secondary == state.spec_get_secondary(spec_map_primary(primary)),
                    spec_check_secondary_cost(new_state, secondary),
                    0 <= j <= secondaries@.len(),
                    forall|k: int|
                        0 <= k < secondaries@.len() ==> spec_secondary_available(
                            new_state,
                            #[trigger] secondaries@[k],
                        ) && spec_map_secondary(secondaries@[k]) == secondary,
                    forall|sec: Secondary|
                        spec_secondary_available(new_state, sec) && spec_map_secondary(sec)
                            == secondary ==> secondaries@.contains(sec),
                    forall|k: int|
                        0 <= k < actions@.len() ==> spec_mask_sound(
                            *state,
                            #[trigger] actions@[k],
                        ),
                    forall|k: int|
                        0 <= k < i + 1 ==> actions@.contains(
                            TurnMask::PrimaryOnly(#[trigger] primaries@[k]),
                        ),
                    forall|k: int, sec: Secondary|
                        0 <= k < i && #[trigger] spec_secondary_enumerated(
                            *state,
                            primaries@[k],
                            sec,
                        ) ==> actions@.contains(
                            TurnMask::PrimaryAndSecondary(primaries@[k], sec),
                        ),
                    forall|b: int|
                        0 <= b < j ==> actions@.contains(
                            TurnMask::PrimaryAndSecondary(primary, #[trigger] secondaries@[b]),
                        ),
                decreases secondaries@.len() - j,
            {
                let sec = secondaries[j];
                let ghost before2 = actions@;
                actions.push(TurnMask::PrimaryAndSecondary(primary, sec));
                proof {
                    assert(spec_mask_sound(
                        *state,
                        TurnMask::PrimaryAndSecondary(primary, sec),
                    ));
                    assert forall|k: int| 0 <= k < i + 1 implies actions@.contains(
                        TurnMask::PrimaryOnly(#[trigger] primaries@[k]),
                    ) by {
                        lemma_push_contains_mask(
                            before2,
                            TurnMask::PrimaryAndSecondary(primary, sec),
                            TurnMask::PrimaryOnly(primaries@[k]),
                        );
                    }
                    assert forall|k: int, s2: Secondary|
                        0 <= k < i && #[trigger] spec_secondary_enumerated(
                            *state,
                            primaries@[k],
                            s2,
                        ) implies actions@.contains(
                        TurnMask::PrimaryAndSecondary(primaries@[k], s2),
                    ) by {
                        lemma_push_contains_mask(
                            before2,
                            TurnMask::PrimaryAndSecondary(primary, sec),
                            TurnMask::PrimaryAndSecondary(primaries@[k], s2),
                        );
                    }
                    assert forall|b: int| 0 <= b < j + 1 implies actions@.contains(
                        TurnMask::PrimaryAndSecondary(primary, #[trigger] secondaries@[b]),
                    ) by {
                        if b < j as int {
                            lemma_push_contains_mask(
                                before2,
                                TurnMask::PrimaryAndSecondary(primary, sec),
                                TurnMask::PrimaryAndSecondary(primary, secondaries@[b]),
                            );
                        } else {
                            assert(actions@[actions@.len() - 1] == TurnMask::PrimaryAndSecondary(
                                primary,
                                sec,
                            ));
                        }
                    }
                }
                j = j + 1;
            }
            proof {
                assert forall|sec: Secondary|
                    spec_secondary_enumerated(*state, primary, sec) implies actions@.contains(
                    TurnMask::PrimaryAndSecondary(primary, sec),
                ) by {
                    assert(secondaries@.contains(sec));
                    let b = choose|b: int|
                        0 <= b < secondaries@.len() && secondaries@[b] == sec;
                    assert(actions@.contains(
                        TurnMask::PrimaryAndSecondary(primary, secondaries@[b]),
                    ));
                }
            }
        } else {
            proof {
                assert forall|sec: Secondary|
                    spec_secondary_enumerated(*state, primary, sec) implies actions@.contains(
                    TurnMask::PrimaryAndSecondary(primary, sec),
                ) by {
                    assert(!spec_check_secondary_cost(new_state, secondary));
                    assert(false);
                }
            }
        }
        i = i + 1;
    }
    proof {
        assert forall|p: Primary| spec_primary_enumerated(*state, p) implies actions@.contains(
            TurnMask::PrimaryOnly(p),
        ) by {
            let k = choose|k: int| 0 <= k < primaries@.len() && primaries@[k] == p;
            assert(actions@.contains(TurnMask::PrimaryOnly(primaries@[k])));
        }
        assert forall|p: Primary, sec: Secondary|
            spec_primary_enumerated(*state, p) && spec_secondary_enumerated(
                *state,
                p,
                sec,
            ) implies actions@.contains(TurnMask::PrimaryAndSecondary(p, sec)) by {
            let k = choose|k: int| 0 <= k < primaries@.len() && primaries@[k] == p;
            assert(spec_secondary_enumerated(*state, primaries@[k], sec));
            assert(actions@.contains(TurnMask::PrimaryAndSecondary(primaries@[k], sec)));
        }
    }
    actions
}

/// A push keeps every mask the sequence already contains.
proof fn lemma_push_contains_mask(s: Seq<TurnMask>, x: TurnMask, y: TurnMask)
    requires
        s.contains(y),
    ensures
        s.push(x).contains(y),
{
    let i = choose|i: int| 0 <= i < s.len() && s[i] == y;
    assert(s.push(x)[i] == y);
}

} // verus!
