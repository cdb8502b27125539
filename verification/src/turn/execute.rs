use vstd::prelude::*;

use crate::game::recruits::Recruit;
use crate::game::turnhelper::{check_primary, spec_check_primary};
use crate::game::upgrades::SecondaryUpgrade;
use crate::game::Resource;
use crate::game_state::{add_sat_i32, sat_add_i32, PlayerState};
use crate::template::{PrimaryAction, SecondaryAction};
use crate::turn::turnmask::{Move, Movement, Primary, Produce, Secondary, Tile, TurnMask};

verus! {

/// The category of a primary action.
pub open spec fn spec_map_primary(primary: Primary) -> PrimaryAction {
    match primary {
        Primary::Move(_) => PrimaryAction::Move,
        Primary::Tax => PrimaryAction::Tax,
        Primary::Trade(_, _) => PrimaryAction::Trade,
        Primary::Promote => PrimaryAction::Promote,
        Primary::Bolster => PrimaryAction::Bolster,
        Primary::Enforce => PrimaryAction::Enforce,
        Primary::Produce(_) => PrimaryAction::Produce,
    }
}

pub fn map_primary(primary: &Primary) -> (r: PrimaryAction)
    ensures
        r == spec_map_primary(*primary),
{
    match primary {
        Primary::Move(_) => PrimaryAction::Move,
        Primary::Tax => PrimaryAction::Tax,
        Primary::Trade(_, _) => PrimaryAction::Trade,
        Primary::Promote => PrimaryAction::Promote,
        Primary::Bolster => PrimaryAction::Bolster,
        Primary::Enforce => PrimaryAction::Enforce,
        Primary::Produce(_) => PrimaryAction::Produce,
    }
}

/// The category of a secondary action.
pub open spec fn spec_map_secondary(secondary: Secondary) -> SecondaryAction {
    match secondary {
        Secondary::Upgrade(_, _) => SecondaryAction::Upgrade,
        Secondary::Deploy(_) => SecondaryAction::Deploy,
        Secondary::Build(_) => SecondaryAction::Build,
        Secondary::Enlist(_, _) => SecondaryAction::Enlist,
    }
}

pub fn map_secondary(secondary: &Secondary) -> (r: SecondaryAction)
    ensures
        r == spec_map_secondary(*secondary),
{
    match secondary {
        Secondary::Upgrade(_, _) => SecondaryAction::Upgrade,
        Secondary::Deploy(_) => SecondaryAction::Deploy,
        Secondary::Build(_) => SecondaryAction::Build,
        Secondary::Enlist(_, _) => SecondaryAction::Enlist,
    }
}

/// The resource a producible tile yields; the village yields workers
/// instead.
pub open spec fn spec_map_tile_resource(tile: Tile) -> Option<Resource> {
    match tile {
        Tile::Woods => Some(Resource::Wood),
        Tile::Mountain => Some(Resource::Metal),
        Tile::Tundra => Some(Resource::Oil),
        Tile::Farm => Some(Resource::Food),
        Tile::Village => None,
    }
}

pub fn map_tile_resource(tile: &Tile) -> (r: Option<Resource>)
    ensures
        r == spec_map_tile_resource(*tile),
{
    match tile {
        Tile::Woods => Some(Resource::Wood),
        Tile::Mountain => Some(Resource::Metal),
        Tile::Tundra => Some(Resource::Oil),
        Tile::Farm => Some(Resource::Food),
        Tile::Village => None,
    }
}

/// One worker relocated from the movement's source tile to its target,
/// if the source has one; otherwise nothing changes.
pub open spec fn spec_move_people(state: PlayerState, movement: Movement) -> PlayerState {
    if state.production.spec_get(movement.0) >= 1 {
        PlayerState {
            production: state.production.spec_add(movement.0, -1).spec_add(movement.1, 1),
            ..state
        }
    } else {
        state
    }
}

/// One tile's yield: the village doubles its worker count (capped); any
/// other tile grants its resource once per worker standing there.
pub open spec fn spec_produce_resource(state: PlayerState, tile: Tile) -> PlayerState {
    match tile {
        Tile::Village => PlayerState {
            production: state.production.spec_add(
                Tile::Village,
                state.production.spec_get(Tile::Village) as int,
            ),
            ..state
        },
        _ => match spec_map_tile_resource(tile) {
            Some(resource) => PlayerState {
                resources: state.resources.spec_add(
                    resource,
                    state.production.spec_get(tile) as int,
                ),
                ..state
            },
            None => state,
        },
    }
}

/// The tiered penalty paid before producing: military at four or more
/// committed workers, popularity at six, a coin at eight.
pub open spec fn spec_produce_penalty(state: PlayerState) -> PlayerState {
    let total = state.production.spec_total();
    let s1 = if total >= 4 {
        PlayerState { military: state.military.spec_add(-1), ..state }
    } else {
        state
    };
    let s2 = if total >= 6 {
        PlayerState { popularity: s1.popularity.spec_add(-1), ..s1 }
    } else {
        s1
    };
    if total >= 8 {
        PlayerState { coins: (s2.coins - 1) as i32, ..s2 }
    } else {
        s2
    }
}

/// The extra yield of the mill's recorded tile, if the mill is built.
pub open spec fn spec_produce_mill(state: PlayerState) -> PlayerState {
    match state.buildings.mill_location {
        Some(location) => spec_produce_resource(state, location),
        None => state,
    }
}

/// The coin gain of the Tax primary.
pub open spec fn spec_tax(s: PlayerState) -> PlayerState {
    PlayerState {
        coins: sat_add_i32(
            s.coins as int,
            if s.upgrades.tax_evolved {
                2int
            } else {
                1int
            },
        ) as i32,
        ..s
    }
}

/// The effects of the Trade primary: a coin spent, two resources
/// granted, military bonus with an armory.
pub open spec fn spec_trade(s: PlayerState, res1: Resource, res2: Resource) -> PlayerState {
    let paid = PlayerState { coins: (s.coins - 1) as i32, ..s };
    let granted = PlayerState {
        resources: paid.resources.spec_add(res1, 1).spec_add(res2, 1),
        ..paid
    };
    if granted.buildings.armory_built {
        PlayerState { military: granted.military.spec_add(1), ..granted }
    } else {
        granted
    }
}

/// The effects of the Promote primary: a coin spent, popularity gained,
/// military bonus with an armory.
pub open spec fn spec_promote(s: PlayerState) -> PlayerState {
    let paid = PlayerState { coins: (s.coins - 1) as i32, ..s };
    let granted = PlayerState {
        popularity: paid.popularity.spec_add(
            if paid.upgrades.popularity_evolved {
                2int
            } else {
                1int
            },
        ),
        ..paid
    };
    if granted.buildings.armory_built {
        PlayerState { military: granted.military.spec_add(1), ..granted }
    } else {
        granted
    }
}

/// The effects of the Bolster primary: a coin spent, military gained,
/// popularity bonus with a monument.
pub open spec fn spec_bolster(s: PlayerState) -> PlayerState {
    let paid = PlayerState { coins: (s.coins - 1) as i32, ..s };
    let granted = PlayerState {
        military: paid.military.spec_add(
            if paid.upgrades.power_evolved {
                3int
            } else {
                2int
            },
        ),
        ..paid
    };
    if granted.buildings.monument_built {
        PlayerState { popularity: granted.popularity.spec_add(1), ..granted }
    } else {
        granted
    }
}

/// The effects of the Enforce primary: a coin spent, cards gained,
/// popularity bonus with a monument.
pub open spec fn spec_enforce(s: PlayerState) -> PlayerState {
    let paid = PlayerState { coins: (s.coins - 1) as i32, ..s };
    let granted = PlayerState {
        cards: sat_add_i32(
            paid.cards as int,
            if paid.upgrades.card_evolved {
                2int
            } else {
                1int
            },
        ) as i32,
        ..paid
    };
    if granted.buildings.monument_built {
        PlayerState { popularity: granted.popularity.spec_add(1), ..granted }
    } else {
        granted
    }
}

/// The state after a legal primary action.
pub open spec fn spec_execute_primary(state: PlayerState, primary: Primary) -> PlayerState {
    let s = PlayerState { turns: sat_add_i32(state.turns as int, 1) as i32, ..state };
    match primary {
        Primary::Move(Move::Move1(m1)) => spec_move_people(s, m1),
        Primary::Move(Move::Move2(m1, m2)) => spec_move_people(spec_move_people(s, m1), m2),
        Primary::Move(Move::Move3(m1, m2, m3)) => spec_move_people(
            spec_move_people(spec_move_people(s, m1), m2),
            m3,
        ),
        Primary::Tax => spec_tax(s),
        Primary::Trade(res1, res2) => spec_trade(s, res1, res2),
        Primary::Promote => spec_promote(s),
        Primary::Bolster => spec_bolster(s),
        Primary::Enforce => spec_enforce(s),
        Primary::Produce(Produce::Produce1(t1)) => spec_produce_mill(
            spec_produce_resource(spec_produce_penalty(s), t1),
        ),
        Primary::Produce(Produce::Produce2(t1, t2)) => spec_produce_mill(
            spec_produce_resource(spec_produce_resource(spec_produce_penalty(s), t1), t2),
        ),
        Primary::Produce(Produce::Produce3(t1, t2, t3)) => spec_produce_mill(
            spec_produce_resource(
                spec_produce_resource(spec_produce_resource(spec_produce_penalty(s), t1), t2),
                t3,
            ),
        ),
    }
}

/// The Upgrade secondary when its oil cost is affordable.
pub open spec fn spec_secondary_upgrade(
    state: PlayerState,
    primary: crate::game::upgrades::PrimaryUpgrade,
    sec_upgrade: SecondaryUpgrade,
    cost: int,
) -> PlayerState {
    let bonus = if state.recruits.spec_is_secondary_recruited(Recruit::Power) {
        PlayerState { military: state.military.spec_add(1), ..state }
    } else {
        state
    };
    let paid = PlayerState {
        resources: crate::game_state::resources::ResourcesState {
            oil: (bonus.resources.oil - cost) as i32,
            ..bonus.resources
        },
        ..bonus
    };
    let upgraded = PlayerState {
        upgrades: paid.upgrades.spec_upgrade(primary, sec_upgrade),
        ..paid
    };
    PlayerState {
        coins: sat_add_i32(
            upgraded.coins as int,
            upgraded.upgrades.spec_get_upgrade_coins(SecondaryUpgrade::Upgrade) as int,
        ) as i32,
        ..upgraded
    }
}

/// The Deploy secondary when its metal cost is affordable.
pub open spec fn spec_secondary_deploy(
    state: PlayerState,
    mech: crate::game::mechs::Mech,
    cost: int,
) -> PlayerState {
    let bonus = if state.recruits.spec_is_secondary_recruited(Recruit::Coin) {
        PlayerState { coins: sat_add_i32(state.coins as int, 1) as i32, ..state }
    } else {
        state
    };
    let paid = PlayerState {
        resources: crate::game_state::resources::ResourcesState {
            metal: (bonus.resources.metal - cost) as i32,
            ..bonus.resources
        },
        ..bonus
    };
    let deployed = PlayerState { mechs: paid.mechs.spec_deploy(mech), ..paid };
    PlayerState {
        coins: sat_add_i32(
            deployed.coins as int,
            deployed.upgrades.spec_get_upgrade_coins(SecondaryUpgrade::Deploy) as int,
        ) as i32,
        ..deployed
    }
}

/// The Build secondary when its wood cost is affordable.
pub open spec fn spec_secondary_build(
    state: PlayerState,
    building: crate::turn::turnmask::Building,
    cost: int,
) -> PlayerState {
    let bonus = if state.recruits.spec_is_secondary_recruited(Recruit::Popularity) {
        PlayerState { popularity: state.popularity.spec_add(1), ..state }
    } else {
        state
    };
    let paid = PlayerState {
        resources: crate::game_state::resources::ResourcesState {
            wood: (bonus.resources.wood - cost) as i32,
            ..bonus.resources
        },
        ..bonus
    };
    let built = PlayerState { buildings: paid.buildings.spec_built(building), ..paid };
    PlayerState {
        coins: sat_add_i32(
            built.coins as int,
            built.upgrades.spec_get_upgrade_coins(SecondaryUpgrade::Build) as int,
        ) as i32,
        ..built
    }
}

/// The Enlist secondary when its food cost is affordable.
pub open spec fn spec_secondary_enlist(
    state: PlayerState,
    sec_recruit: Recruit,
    onetime: Recruit,
    cost: int,
) -> PlayerState {
    let bonus = if state.recruits.spec_is_secondary_recruited(Recruit::Card) {
        PlayerState { cards: sat_add_i32(state.cards as int, 1) as i32, ..state }
    } else {
        state
    };
    let paid = PlayerState {
        resources: crate::game_state::resources::ResourcesState {
            food: (bonus.resources.food - cost) as i32,
            ..bonus.resources
        },
        ..bonus
    };
    let recruited = PlayerState {
        recruits: paid.recruits.spec_recruit(sec_recruit, onetime),
        ..paid
    };
    PlayerState {
        coins: sat_add_i32(
            recruited.coins as int,
            recruited.upgrades.spec_get_upgrade_coins(SecondaryUpgrade::Enlist) as int,
        ) as i32,
        ..recruited
    }
}

/// The state after a secondary action: gated a second time on the
/// category's resource cost, granting the recruit-linked bonus first,
/// then paying, applying the category change, and collecting the
/// category's bonus coins. An unaffordable secondary changes nothing.
pub open spec fn spec_execute_secondary(state: PlayerState, secondary: Secondary) -> PlayerState {
    let cost = state.upgrades.spec_get_upgrade_cost(spec_map_secondary(secondary));
    match secondary {
        Secondary::Upgrade(primary, sec_upgrade) => if state.resources.oil >= cost {
            spec_secondary_upgrade(state, primary, sec_upgrade, cost)
        } else {
            state
        },
        Secondary::Deploy(mech) => if state.resources.metal >= cost {
            spec_secondary_deploy(state, mech, cost)
        } else {
            state
        },
        Secondary::Build(building) => if state.resources.wood >= cost {
            spec_secondary_build(state, building, cost)
        } else {
            state
        },
        Secondary::Enlist(sec_recruit, onetime) => if state.resources.food >= cost {
            spec_secondary_enlist(state, sec_recruit, onetime, cost)
        } else {
            state
        },
    }
}

/// Relocating a worker keeps the state well-formed.
pub proof fn lemma_move_people_wf(s: PlayerState, m: Movement)
    requires
        s.wf(),
    ensures
        spec_move_people(s, m).wf(),
{
}

/// A tile's yield keeps the state well-formed.
pub proof fn lemma_produce_resource_wf(s: PlayerState, t: Tile)
    requires
        s.wf(),
    ensures
        spec_produce_resource(s, t).wf(),
{
}

/// The produce penalty keeps the state well-formed when the coin tier is
/// covered.
pub proof fn lemma_produce_penalty_wf(s: PlayerState)
    requires
        s.wf(),
        s.production.spec_total() >= 8 ==> s.coins >= 1,
    ensures
        spec_produce_penalty(s).wf(),
{
}

/// The Tax primary keeps the state well-formed.
proof fn lemma_tax_wf(s: PlayerState)
    requires
        s.wf(),
    ensures
        spec_tax(s).wf(),
{
}

/// A paid-for Trade keeps the state well-formed.
proof fn lemma_trade_wf(s: PlayerState, res1: Resource, res2: Resource)
    requires
        s.wf(),
        s.coins >= 1,
    ensures
        spec_trade(s, res1, res2).wf(),
{
}

/// A paid-for Promote keeps the state well-formed.
proof fn lemma_promote_wf(s: PlayerState)
    requires
        s.wf(),
        s.coins >= 1,
    ensures
        spec_promote(s).wf(),
{
}

/// A paid-for Bolster keeps the state well-formed.
proof fn lemma_bolster_wf(s: PlayerState)
    requires
        s.wf(),
        s.coins >= 1,
    ensures
        spec_bolster(s).wf(),
{
}

/// A paid-for Enforce keeps the state well-formed.
proof fn lemma_enforce_wf(s: PlayerState)
    requires
        s.wf(),
        s.coins >= 1,
    ensures
        spec_enforce(s).wf(),
{
}

/// A legal primary action keeps the state well-formed.
pub proof fn lemma_execute_primary_wf(s: PlayerState, p: Primary)
    requires
        s.wf(),
        spec_check_primary(s, p),
    ensures
        spec_execute_primary(s, p).wf(),
{
    let s1 = PlayerState { turns: sat_add_i32(s.turns as int, 1) as i32, ..s };
    assert(s1.wf());
    match p {
        Primary::Move(Move::Move1(m1)) => {
            lemma_move_people_wf(s1, m1);
        }
        Primary::Move(Move::Move2(m1, m2)) => {
            lemma_move_people_wf(s1, m1);
            lemma_move_people_wf(spec_move_people(s1, m1), m2);
        }
        Primary::Move(Move::Move3(m1, m2, m3)) => {
            lemma_move_people_wf(s1, m1);
            lemma_move_people_wf(spec_move_people(s1, m1), m2);
            lemma_move_people_wf(spec_move_people(spec_move_people(s1, m1), m2), m3);
        }
        Primary::Tax => {
            lemma_tax_wf(s1);
        }
        Primary::Trade(res1, res2) => {
            lemma_trade_wf(s1, res1, res2);
        }
        Primary::Promote => {
            lemma_promote_wf(s1);
        }
        Primary::Bolster => {
            lemma_bolster_wf(s1);
        }
        Primary::Enforce => {
            lemma_enforce_wf(s1);
        }
        Primary::Produce(Produce::Produce1(t1)) => {
            lemma_produce_penalty_wf(s1);
            let s2 = spec_produce_penalty(s1);
            lemma_produce_resource_wf(s2, t1);
            let s3 = spec_produce_resource(s2, t1);
            match s3.buildings.mill_location {
                Some(location) => lemma_produce_resource_wf(s3, location),
                None => {}
            }
        }
        Primary::Produce(Produce::Produce2(t1, t2)) => {
            lemma_produce_penalty_wf(s1);
            let s2 = spec_produce_penalty(s1);
            lemma_produce_resource_wf(s2, t1);
            let s3 = spec_produce_resource(s2, t1);
            lemma_produce_resource_wf(s3, t2);
            let s4 = spec_produce_resource(s3, t2);
            match s4.buildings.mill_location {
                Some(location) => lemma_produce_resource_wf(s4, location),
                None => {}
            }
        }
        Primary::Produce(Produce::Produce3(t1, t2, t3)) => {
            lemma_produce_penalty_wf(s1);
            let s2 = spec_produce_penalty(s1);
            lemma_produce_resource_wf(s2, t1);
            let s3 = spec_produce_resource(s2, t1);
            lemma_produce_resource_wf(s3, t2);
            let s4 = spec_produce_resource(s3, t2);
            lemma_produce_resource_wf(s4, t3);
            let s5 = spec_produce_resource(s4, t3);
            match s5.buildings.mill_location {
                Some(location) => lemma_produce_resource_wf(s5, location),
                None => {}
            }
        }
    }
}

/// The affordable Upgrade secondary keeps the state well-formed.
proof fn lemma_secondary_upgrade_wf(
    s: PlayerState,
    primary: crate::game::upgrades::PrimaryUpgrade,
    sec_upgrade: SecondaryUpgrade,
    cost: int,
)
    requires
        s.wf(),
        0 <= cost <= s.resources.oil,
    ensures
        spec_secondary_upgrade(s, primary, sec_upgrade, cost).wf(),
{
}

/// The affordable Deploy secondary keeps the state well-formed.
proof fn lemma_secondary_deploy_wf(s: PlayerState, mech: crate::game::mechs::Mech, cost: int)
    requires
        s.wf(),
        0 <= cost <= s.resources.metal,
    ensures
        spec_secondary_deploy(s, mech, cost).wf(),
{
}

/// The affordable Build secondary keeps the state well-formed.
proof fn lemma_secondary_build_wf(
    s: PlayerState,
    building: crate::turn::turnmask::Building,
    cost: int,
)
    requires
        s.wf(),
        0 <= cost <= s.resources.wood,
    ensures
        spec_secondary_build(s, building, cost).wf(),
{
}

/// The affordable Enlist secondary keeps the state well-formed.
proof fn lemma_secondary_enlist_wf(s: PlayerState, sec_recruit: Recruit, onetime: Recruit, cost: int)
    requires
        s.wf(),
        0 <= cost <= s.resources.food,
    ensures
        spec_secondary_enlist(s, sec_recruit, onetime, cost).wf(),
{
}

/// A secondary action keeps the state well-formed.
pub proof fn lemma_execute_secondary_wf(s: PlayerState, sec: Secondary)
    requires
        s.wf(),
    ensures
        spec_execute_secondary(s, sec).wf(),
{
    let cost = s.upgrades.spec_get_upgrade_cost(spec_map_secondary(sec));
    assert(cost >= 0);
    match sec {
        Secondary::Upgrade(primary, sec_upgrade) => {
            if s.resources.oil >= cost {
                lemma_secondary_upgrade_wf(s, primary, sec_upgrade, cost);
            }
        }
        Secondary::Deploy(mech) => {
            if s.resources.metal >= cost {
                lemma_secondary_deploy_wf(s, mech, cost);
            }
        }
        Secondary::Build(building) => {
            if s.resources.wood >= cost {
                lemma_secondary_build_wf(s, building, cost);
            }
        }
        Secondary::Enlist(sec_recruit, onetime) => {
            if s.resources.food >= cost {
                lemma_secondary_enlist_wf(s, sec_recruit, onetime, cost);
            }
        }
    }
}

/// The successor of a whole turn: the primary is applied only when
/// legal, the secondary only after a legal primary; an illegal mask
/// leaves the state unchanged.
pub open spec fn spec_turn(state: PlayerState, mask: TurnMask) -> PlayerState {
    match mask {
        TurnMask::PrimaryOnly(primary) => if spec_check_primary(state, primary) {
            spec_execute_primary(state, primary)
        } else {
            state
        },
        TurnMask::PrimaryAndSecondary(primary, secondary) => if spec_check_primary(
            state,
            primary,
        ) {
            spec_execute_secondary(spec_execute_primary(state, primary), secondary)
        } else {
            state
        },
    }
}

/// Relocates one worker if the source tile has one.
pub fn move_people(state: &mut PlayerState, movement: &Movement)
    requires
        old(state).production.wf(),
    ensures
        *final(state) == spec_move_people(*old(state), *movement),
        final(state).production.wf(),
{
    if crate::game::turnhelper::check_move_from(state, &movement.0) {
        state.production.add(&movement.0, -1);
        state.production.add(&movement.1, 1);
    }
}

/// Applies one tile's yield.
pub fn produce_resource(state: &mut PlayerState, tile: &Tile)
    requires
        old(state).production.wf(),
    ensures
        *final(state) == spec_produce_resource(*old(state), *tile),
        final(state).production.wf(),
{
    match tile {
        Tile::Village => {
            let amount = state.production.get(&Tile::Village);
            state.production.add(&Tile::Village, amount);
        }
        _ => {
            match map_tile_resource(tile) {
                Some(resource) => {
                    let amount = state.production.get(tile);
                    proof {
                        assert(amount >= 0);
                    }
                    state.resources.add(resource, amount);
                }
                None => {}
            }
        }
    }
}

/// Applies a primary action that has passed the checker.
#[verifier::rlimit(100)]
#[verifier::spinoff_prover]
pub fn execute_primary(state: &mut PlayerState, primary: &Primary)
    requires
        old(state).wf(),
        spec_check_primary(*old(state), *primary),
    ensures
        *final(state) == spec_execute_primary(*old(state), *primary),
{
    state.turns = add_sat_i32(state.turns, 1);
    match primary {
        Primary::Move(Move::Move1(m1)) => {
            move_people(state, m1);
        }
        Primary::Move(Move::Move2(m1, m2)) => {
            move_people(state, m1);
            move_people(state, m2);
        }
        Primary::Move(Move::Move3(m1, m2, m3)) => {
            move_people(state, m1);
            move_people(state, m2);
            move_people(state, m3);
        }
        Primary::Tax => {
            execute_tax(state);
        }
        Primary::Trade(res1, res2) => {
            execute_trade(state, *res1, *res2);
        }
        Primary::Promote => {
            execute_promote(state);
        }
        Primary::Bolster => {
            execute_bolster(state);
        }
        Primary::Enforce => {
            execute_enforce(state);
        }
        Primary::Produce(Produce::Produce1(t1)) => {
            produce_penalty(state);
            produce_resource(state, t1);
            produce_mill(state);
        }
        Primary::Produce(Produce::Produce2(t1, t2)) => {
            produce_penalty(state);
            produce_resource(state, t1);
            produce_resource(state, t2);
            produce_mill(state);
        }
        Primary::Produce(Produce::Produce3(t1, t2, t3)) => {
            produce_penalty(state);
            produce_resource(state, t1);
            produce_resource(state, t2);
            produce_resource(state, t3);
            produce_mill(state);
        }
    }
}

fn execute_tax(state: &mut PlayerState)
    ensures
        *final(state) == spec_tax(*old(state)),
{
    let gain: i32 = if state.upgrades.tax_evolved {
        2
    } else {
        1
    };
    state.coins = add_sat_i32(state.coins, gain);
}

fn execute_trade(state: &mut PlayerState, res1: Resource, res2: Resource)
    requires
        old(state).coins >= 1,
    ensures
        *final(state) == spec_trade(*old(state), res1, res2),
{
    state.coins -= 1;
    state.resources.add(res1, 1);
    state.resources.add(res2, 1);
    if state.buildings.armory_built {
        state.military.add(1);
    }
}

fn execute_promote(state: &mut PlayerState)
    requires
        old(state).coins >= 1,
    ensures
        *final(state) == spec_promote(*old(state)),
{
    state.coins -= 1;
    let popularity_increase: i32 = if state.upgrades.popularity_evolved {
        2
    } else {
        1
    };
    state.popularity.add(popularity_increase);

    if state.buildings.armory_built {
        state.military.add(1);
    }
}

fn execute_bolster(state: &mut PlayerState)
    requires
        old(state).coins >= 1,
    ensures
        *final(state) == spec_bolster(*old(state)),
{
    state.coins -= 1;
    let power_increase: i32 = if state.upgrades.power_evolved {
        3
    } else {
        2
    };
    state.military.add(power_increase);

    if state.buildings.monument_built {
        state.popularity.add(1);
    }
}

fn execute_enforce(state: &mut PlayerState)
    requires
        old(state).coins >= 1,
    ensures
        *final(state) == spec_enforce(*old(state)),
{
    state.coins -= 1;
    let card_increase: i32 = if state.upgrades.card_evolved {
        2
    } else {
        1
    };
    state.cards = add_sat_i32(state.cards, card_increase);

    if state.buildings.monument_built {
        state.popularity.add(1);
    }
}

/// Pays the tiered produce penalty.
fn produce_penalty(state: &mut PlayerState)
    requires
        old(state).production.wf(),
        old(state).production.spec_total() >= 8 ==> old(state).coins >= 1,
    ensures
        *final(state) == spec_produce_penalty(*old(state)),
{
    let total = state.production.total();
    if total >= 4 {
        state.military.add(-1);
    }
    if total >= 6 {
        state.popularity.add(-1);
    }
    if total >= 8 {
        state.coins -= 1;
    }
}

/// Applies the mill's extra yield if the mill is built.
fn produce_mill(state: &mut PlayerState)
    requires
        old(state).production.wf(),
    ensures
        *final(state) == spec_produce_mill(*old(state)),
        final(state).production.wf(),
{
    match state.buildings.mill_location {
        Some(location) => {
            produce_resource(state, &location);
        }
        None => {}
    }
}

/// Applies a secondary action, gated on its resource cost; an
/// unaffordable one changes nothing.
#[verifier::rlimit(100)]
#[verifier::spinoff_prover]
pub fn execute_secondary(state: &mut PlayerState, secondary: &Secondary)
    requires
        old(state).wf(),
    ensures
        *final(state) == spec_execute_secondary(*old(state), *secondary),
{
    let cost = state.upgrades.get_upgrade_cost(map_secondary(secondary));
    match secondary {
        Secondary::Upgrade(primary, sec_upgrade) => {
            if state.resources.oil >= cost {
                if state.recruits.is_secondary_recruited(Recruit::Power) {
                    state.military.add(1);
                }
                state.resources.oil -= cost;
                state.upgrades.upgrade(*primary, *sec_upgrade);
                let bonus_coins = state.upgrades.get_upgrade_coins(SecondaryUpgrade::Upgrade);
                state.coins = add_sat_i32(state.coins, bonus_coins);
                proof {
                    assert(*state == spec_secondary_upgrade(
                        *old(state),
                        *primary,
                        *sec_upgrade,
                        cost as int,
                    ));
                }
            }
        }
        Secondary::Deploy(mech) => {
            if state.resources.metal >= cost {
                if state.recruits.is_secondary_recruited(Recruit::Coin) {
                    state.coins = add_sat_i32(state.coins, 1);
                }
                state.resources.metal -= cost;
                state.mechs.deploy(*mech);
                let bonus_coins = state.upgrades.get_upgrade_coins(SecondaryUpgrade::Deploy);
                state.coins = add_sat_i32(state.coins, bonus_coins);
                proof {
                    assert(*state == spec_secondary_deploy(*old(state), *mech, cost as int));
                }
            }
        }
        Secondary::Build(building) => {
            if state.resources.wood >= cost {
                if state.recruits.is_secondary_recruited(Recruit::Popularity) {
                    state.popularity.add(1);
                }
                state.resources.wood -= cost;
                state.buildings.built(*building);
                let bonus_coins = state.upgrades.get_upgrade_coins(SecondaryUpgrade::Build);
                state.coins = add_sat_i32(state.coins, bonus_coins);
                proof {
                    assert(*state == spec_secondary_build(*old(state), *building, cost as int));
                }
            }
        }
        Secondary::Enlist(sec_recruit, onetime) => {
            if state.resources.food >= cost {
                if state.recruits.is_secondary_recruited(Recruit::Card) {
                    state.cards = add_sat_i32(state.cards, 1);
                }
                state.resources.food -= cost;
                state.recruits.recruit(*sec_recruit, *onetime);
                let bonus_coins = state.upgrades.get_upgrade_coins(SecondaryUpgrade::Enlist);
                state.coins = add_sat_i32(state.coins, bonus_coins);
                proof {
                    assert(*state == spec_secondary_enlist(
                        *old(state),
                        *sec_recruit,
                        *onetime,
                        cost as int,
                    ));
                }
            }
        }
    }
}

/// Executes one whole turn and hands the new state back: the primary is
/// validated first and an illegal mask leaves the state untouched, so no
/// turn is ever partially applied.
pub fn turn(state: PlayerState, mask: &TurnMask) -> (r: PlayerState)
    requires
        state.wf(),
    ensures
        r == spec_turn(state, *mask),
        r.wf(),
{
    let ghost start = state;
    let mut state = state;
    match mask {
        TurnMask::PrimaryOnly(primary) => {
            if check_primary(&state, primary) {
                proof {
                    lemma_execute_primary_wf(start, *primary);
                }
                execute_primary(&mut state, primary);
            }
        }
        TurnMask::PrimaryAndSecondary(primary, secondary) => {
            if check_primary(&state, primary) {
                proof {
                    lemma_execute_primary_wf(start, *primary);
                }
                execute_primary(&mut state, primary);
                proof {
                    lemma_execute_secondary_wf(state, *secondary);
                }
                execute_secondary(&mut state, secondary);
            }
        }
    }
    state
}

/// Every star the first state has achieved, the second still has.
pub open spec fn spec_stars_monotone(a: PlayerState, b: PlayerState) -> bool {
    &&& a.upgrades.star ==> b.upgrades.star
    &&& a.mechs.star ==> b.mechs.star
    &&& a.buildings.star ==> b.buildings.star
    &&& a.recruits.star ==> b.recruits.star
    &&& a.military.star ==> b.military.star
    &&& a.popularity.star ==> b.popularity.star
}

/// Relocating a worker never touches the six progress stars.
proof fn lemma_stars_unchanged_by_move(s: PlayerState, m: Movement)
    ensures
        spec_move_people(s, m).upgrades == s.upgrades,
        spec_move_people(s, m).mechs == s.mechs,
        spec_move_people(s, m).buildings == s.buildings,
        spec_move_people(s, m).recruits == s.recruits,
        spec_move_people(s, m).military == s.military,
        spec_move_people(s, m).popularity == s.popularity,
{
}

proof fn lemma_trade_stars(s: PlayerState, r1: Resource, r2: Resource)
    ensures
        spec_stars_monotone(s, spec_trade(s, r1, r2)),
{
}

proof fn lemma_promote_stars(s: PlayerState)
    ensures
        spec_stars_monotone(s, spec_promote(s)),
{
}

proof fn lemma_bolster_stars(s: PlayerState)
    ensures
        spec_stars_monotone(s, spec_bolster(s)),
{
}

proof fn lemma_enforce_stars(s: PlayerState)
    ensures
        spec_stars_monotone(s, spec_enforce(s)),
{
}

proof fn lemma_penalty_stars(s: PlayerState)
    ensures
        spec_stars_monotone(s, spec_produce_penalty(s)),
{
}

/// A tile's yield never touches the six progress stars.
proof fn lemma_stars_unchanged_by_yield(s: PlayerState, t: Tile)
    ensures
        spec_produce_resource(s, t).upgrades == s.upgrades,
        spec_produce_resource(s, t).mechs == s.mechs,
        spec_produce_resource(s, t).buildings == s.buildings,
        spec_produce_resource(s, t).recruits == s.recruits,
        spec_produce_resource(s, t).military == s.military,
        spec_produce_resource(s, t).popularity == s.popularity,
{
}

/// The mill's extra yield never touches the six progress stars.
proof fn lemma_stars_unchanged_by_mill(s: PlayerState)
    ensures
        spec_produce_mill(s).upgrades == s.upgrades,
        spec_produce_mill(s).mechs == s.mechs,
        spec_produce_mill(s).buildings == s.buildings,
        spec_produce_mill(s).recruits == s.recruits,
        spec_produce_mill(s).military == s.military,
        spec_produce_mill(s).popularity == s.popularity,
{
    match s.buildings.mill_location {
        Some(location) => {
            lemma_stars_unchanged_by_yield(s, location);
        }
        None => {}
    }
}

/// No primary action clears an achieved star.
proof fn lemma_primary_star_monotonic(s: PlayerState, p: Primary)
    ensures
        spec_stars_monotone(s, spec_execute_primary(s, p)),
{
    let s1 = PlayerState { turns: sat_add_i32(s.turns as int, 1) as i32, ..s };
    match p {
        Primary::Move(Move::Move1(m1)) => {
            lemma_stars_unchanged_by_move(s1, m1);
        }
        Primary::Move(Move::Move2(m1, m2)) => {
            lemma_stars_unchanged_by_move(s1, m1);
            lemma_stars_unchanged_by_move(spec_move_people(s1, m1), m2);
        }
        Primary::Move(Move::Move3(m1, m2, m3)) => {
            lemma_stars_unchanged_by_move(s1, m1);
            lemma_stars_unchanged_by_move(spec_move_people(s1, m1), m2);
            lemma_stars_unchanged_by_move(spec_move_people(spec_move_people(s1, m1), m2), m3);
        }
        Primary::Tax => {
        }
        Primary::Trade(res1, res2) => {
            lemma_trade_stars(s1, res1, res2);
        }
        Primary::Promote => {
            lemma_promote_stars(s1);
        }
        Primary::Bolster => {
            lemma_bolster_stars(s1);
        }
        Primary::Enforce => {
            lemma_enforce_stars(s1);
        }
        Primary::Produce(Produce::Produce1(t1)) => {
            lemma_penalty_stars(s1);
            let s2 = spec_produce_penalty(s1);
            lemma_stars_unchanged_by_yield(s2, t1);
            let s3 = spec_produce_resource(s2, t1);
            lemma_stars_unchanged_by_mill(s3);
        }
        Primary::Produce(Produce::Produce2(t1, t2)) => {
            lemma_penalty_stars(s1);
            let s2 = spec_produce_penalty(s1);
            lemma_stars_unchanged_by_yield(s2, t1);
            let s3 = spec_produce_resource(s2, t1);
            lemma_stars_unchanged_by_yield(s3, t2);
            let s4 = spec_produce_resource(s3, t2);
            lemma_stars_unchanged_by_mill(s4);
        }
        Primary::Produce(Produce::Produce3(t1, t2, t3)) => {
            lemma_penalty_stars(s1);
            let s2 = spec_produce_penalty(s1);
            lemma_stars_unchanged_by_yield(s2, t1);
            let s3 = spec_produce_resource(s2, t1);
            lemma_stars_unchanged_by_yield(s3, t2);
            let s4 = spec_produce_resource(s3, t2);
            lemma_stars_unchanged_by_yield(s4, t3);
            let s5 = spec_produce_resource(s4, t3);
            lemma_stars_unchanged_by_mill(s5);
        }
    }
}

proof fn lemma_secondary_upgrade_stars(
    s: PlayerState,
    primary: crate::game::upgrades::PrimaryUpgrade,
    sec_upgrade: SecondaryUpgrade,
    cost: int,
)
    ensures
        spec_stars_monotone(s, spec_secondary_upgrade(s, primary, sec_upgrade, cost)),
{
}

proof fn lemma_secondary_deploy_stars(s: PlayerState, mech: crate::game::mechs::Mech, cost: int)
    ensures
        spec_stars_monotone(s, spec_secondary_deploy(s, mech, cost)),
{
}

proof fn lemma_secondary_build_stars(
    s: PlayerState,
    building: crate::turn::turnmask::Building,
    cost: int,
)
    ensures
        spec_stars_monotone(s, spec_secondary_build(s, building, cost)),
{
}

proof fn lemma_secondary_enlist_stars(
    s: PlayerState,
    sec_recruit: Recruit,
    onetime: Recruit,
    cost: int,
)
    ensures
        spec_stars_monotone(s, spec_secondary_enlist(s, sec_recruit, onetime, cost)),
{
}

/// No secondary action clears an achieved star.
proof fn lemma_secondary_star_monotonic(s: PlayerState, sec: Secondary)
    ensures
        spec_stars_monotone(s, spec_execute_secondary(s, sec)),
{
    let cost = s.upgrades.spec_get_upgrade_cost(spec_map_secondary(sec));
    match sec {
        Secondary::Upgrade(primary, sec_upgrade) => {
            if s.resources.oil >= cost {
                lemma_secondary_upgrade_stars(s, primary, sec_upgrade, cost);
            }
        }
        Secondary::Deploy(mech) => {
            if s.resources.metal >= cost {
                lemma_secondary_deploy_stars(s, mech, cost);
            }
        }
        Secondary::Build(building) => {
            if s.resources.wood >= cost {
                lemma_secondary_build_stars(s, building, cost);
            }
        }
        Secondary::Enlist(sec_recruit, onetime) => {
            if s.resources.food >= cost {
                lemma_secondary_enlist_stars(s, sec_recruit, onetime, cost);
            }
        }
    }
}

/// Star monotonicity: once a progress category's star flag is achieved,
/// no turn, legal or rejected, ever clears it.
pub proof fn lemma_star_monotonic(s: PlayerState, m: TurnMask)
    ensures
        spec_stars_monotone(s, spec_turn(s, m)),
{
    match m {
        TurnMask::PrimaryOnly(p) => {
            if spec_check_primary(s, p) {
                lemma_primary_star_monotonic(s, p);
            }
        }
        TurnMask::PrimaryAndSecondary(p, sec) => {
            if spec_check_primary(s, p) {
                lemma_primary_star_monotonic(s, p);
                lemma_secondary_star_monotonic(spec_execute_primary(s, p), sec);
            }
        }
    }
}

/// Relocating one worker keeps the worker total unchanged.
proof fn lemma_move_people_conserves(s: PlayerState, mm: Movement)
    requires
        s.production.wf(),
    ensures
        spec_move_people(s, mm).production.spec_total() == s.production.spec_total(),
        spec_move_people(s, mm).production.wf(),
{
}

/// Resource conservation of movement: a Move turn only relocates
/// workers between tiles, so the total number of committed workers is
/// unchanged; resources and coins are untouched by the relocations
/// themselves.
pub proof fn lemma_move_conserves_workers(s: PlayerState, mv: Move)
    requires
        s.wf(),
    ensures
        spec_turn(s, TurnMask::PrimaryOnly(Primary::Move(mv))).production.spec_total()
            == s.production.spec_total(),
        spec_turn(s, TurnMask::PrimaryOnly(Primary::Move(mv))).resources == s.resources,
        spec_turn(s, TurnMask::PrimaryOnly(Primary::Move(mv))).coins == s.coins,
{
    let p = Primary::Move(mv);
    if spec_check_primary(s, p) {
        let s1 = PlayerState { turns: sat_add_i32(s.turns as int, 1) as i32, ..s };
        match mv {
            Move::Move1(m1) => {
                lemma_move_people_conserves(s1, m1);
            }
            Move::Move2(m1, m2) => {
                lemma_move_people_conserves(s1, m1);
                lemma_move_people_conserves(spec_move_people(s1, m1), m2);
            }
            Move::Move3(m1, m2, m3) => {
                lemma_move_people_conserves(s1, m1);
                lemma_move_people_conserves(spec_move_people(s1, m1), m2);
                lemma_move_people_conserves(spec_move_people(spec_move_people(s1, m1), m2), m3);
            }
        }
    }
}

} // verus!
