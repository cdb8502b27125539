use scythe_engine::campaign::{Faction, Player, PlayerMat};
use scythe_engine::game::Resource;
use scythe_engine::game::turnhelper::check_primary;
use scythe_engine::game::turnhelper::check_secondary_cost;
use scythe_engine::game_state::PlayerState;
use scythe_engine::template::SecondaryAction;
use scythe_engine::turn::execute::{map_primary, turn};
use scythe_engine::turn::turnmask::{Building, Move, Movement, Primary, Produce, Secondary, Tile, TurnMask};

fn base_state() -> PlayerState {
    PlayerState::new(
        &Player {
            name: "Avery".to_string(),
            bonus_starting_coins: 0,
            bonus_starting_power: 0,
            bonus_starting_popularity: 0,
        },
        &Faction {
            name: "North".to_string(),
            starting_power: 3,
            starting_cards: 1,
            first_starting_field: Tile::Village,
            second_starting_field: Tile::Mountain,
        },
        &PlayerMat {
            name: "Foundry".to_string(),
            starting_index: 1,
            starting_coins: 4,
            starting_popularity: 2,
            move_secondary: SecondaryAction::Build,
            trade_secondary: SecondaryAction::Enlist,
            produce_secondary: SecondaryAction::Deploy,
            bolster_secondary: SecondaryAction::Upgrade,
            upgrade_cost: 2,
            upgrade_evolutions: 1,
            upgrade_coins: 3,
            deploy_cost: 1,
            deploy_evolutions: 2,
            deploy_coins: 2,
            build_cost: 2,
            build_evolutions: 1,
            build_coins: 1,
            enlist_cost: 2,
            enlist_evolutions: 2,
            enlist_coins: 0,
        },
    )
}

// Soundness, exercised: every descriptor the enumerator yields passes the
// checker, and an attached secondary is affordable once the primary has
// hypothetically been applied.
#[test]
fn every_enumerated_action_passes_the_checker() {
    let mut s = base_state();
    s.resources.wood = 5;
    s.resources.oil = 5;
    let actions = s.get_actions();
    assert!(!actions.is_empty());
    for mask in actions.iter() {
        match mask {
            TurnMask::PrimaryOnly(p) => {
                assert!(check_primary(&s, p));
            }
            TurnMask::PrimaryAndSecondary(p, sec) => {
                assert!(check_primary(&s, p));
                let after_primary = turn(s, &TurnMask::PrimaryOnly(*p));
                let category = s.get_secondary(map_primary(p));
                assert_eq!(category, scythe_engine::turn::execute::map_secondary(sec));
                assert!(check_secondary_cost(&after_primary, category));
            }
        }
    }
}

#[test]
fn enumeration_contains_tax_and_the_coin_actions() {
    let s = base_state();
    let actions = s.get_actions();
    assert!(actions.contains(&TurnMask::PrimaryOnly(Primary::Tax)));
    assert!(actions.contains(&TurnMask::PrimaryOnly(Primary::Promote)));
    assert!(actions.contains(&TurnMask::PrimaryOnly(Primary::Bolster)));
    assert!(actions.contains(&TurnMask::PrimaryOnly(Primary::Enforce)));
    assert!(actions.contains(&TurnMask::PrimaryOnly(Primary::Trade(
        Resource::Oil,
        Resource::Food
    ))));
}

// Completeness for the coin-gated shapes, exercised the other way: with
// no coin, none of the coin-spending primaries is enumerated, matching
// the checker's verdicts.
#[test]
fn broke_player_gets_no_coin_actions() {
    let mut s = base_state();
    s.coins = 0;
    let actions = s.get_actions();
    assert!(actions.contains(&TurnMask::PrimaryOnly(Primary::Tax)));
    for mask in actions.iter() {
        match mask {
            TurnMask::PrimaryOnly(p) | TurnMask::PrimaryAndSecondary(p, _) => {
                assert!(!matches!(p, Primary::Trade(_, _)));
                assert!(!matches!(p, Primary::Promote));
                assert!(!matches!(p, Primary::Bolster));
                assert!(!matches!(p, Primary::Enforce));
            }
        }
    }
}

#[test]
fn enumeration_contains_single_produce_and_moves_for_occupied_tiles() {
    let s = base_state();
    let actions = s.get_actions();
    assert!(actions.contains(&TurnMask::PrimaryOnly(Primary::Produce(Produce::Produce1(
        Tile::Mountain
    )))));
    assert!(actions.contains(&TurnMask::PrimaryOnly(Primary::Produce(Produce::Produce1(
        Tile::Village
    )))));
    assert!(!actions.contains(&TurnMask::PrimaryOnly(Primary::Produce(Produce::Produce1(
        Tile::Woods
    )))));
    assert!(actions.contains(&TurnMask::PrimaryOnly(Primary::Move(Move::Move1(Movement(
        Tile::Mountain,
        Tile::Farm
    ))))));
    assert!(!actions.contains(&TurnMask::PrimaryOnly(Primary::Move(Move::Move1(Movement(
        Tile::Woods,
        Tile::Farm
    ))))));
}

#[test]
fn produce_pairs_need_both_tiles_occupied() {
    let s = base_state();
    let actions = s.get_actions();
    assert!(actions.contains(&TurnMask::PrimaryOnly(Primary::Produce(Produce::Produce2(
        Tile::Mountain,
        Tile::Village
    )))));
    assert!(!actions.contains(&TurnMask::PrimaryOnly(Primary::Produce(Produce::Produce2(
        Tile::Woods,
        Tile::Village
    )))));
}

// The enumerator also promises paired descriptors: every enumerated
// primary together with each linked, affordable, available secondary.
#[test]
fn enumeration_pairs_primaries_with_available_secondaries() {
    let mut s = base_state();
    // Tax links to Build, whose cost is 3 wood.
    s.resources.wood = 3;
    let actions = s.get_actions();
    assert!(actions.contains(&TurnMask::PrimaryAndSecondary(
        Primary::Tax,
        Secondary::Build(Building::Armory)
    )));
    assert!(actions.contains(&TurnMask::PrimaryAndSecondary(
        Primary::Tax,
        Secondary::Build(Building::Mill(Tile::Tundra))
    )));
    // an already-built building is never offered
    let mut built = s;
    built.buildings.armory_built = true;
    let actions2 = built.get_actions();
    assert!(!actions2.contains(&TurnMask::PrimaryAndSecondary(
        Primary::Tax,
        Secondary::Build(Building::Armory)
    )));
}

// Idempotent rejection, exercised: the checker is a pure function, so
// asking twice yields the same verdict.
#[test]
fn checking_twice_gives_the_same_verdict() {
    let mut s = base_state();
    s.coins = 0;
    let p = Primary::Trade(Resource::Wood, Resource::Wood);
    let first = check_primary(&s, &p);
    let second = check_primary(&s, &p);
    assert_eq!(first, second);
    assert!(!first);
    let q = Primary::Tax;
    assert_eq!(check_primary(&s, &q), check_primary(&s, &q));
}

#[test]
fn checker_accepts_produce_of_distinct_tiles_only_with_the_gate() {
    let mut s = base_state();
    s.upgrades.produce_evolved = false;
    assert!(check_primary(
        &s,
        &Primary::Produce(Produce::Produce2(Tile::Woods, Tile::Farm))
    ));
    assert!(!check_primary(
        &s,
        &Primary::Produce(Produce::Produce2(Tile::Farm, Tile::Farm))
    ));
    assert!(!check_primary(
        &s,
        &Primary::Produce(Produce::Produce3(Tile::Woods, Tile::Farm, Tile::Tundra))
    ));
    s.upgrades.produce_evolved = true;
    assert!(check_primary(
        &s,
        &Primary::Produce(Produce::Produce3(Tile::Woods, Tile::Farm, Tile::Tundra))
    ));
}
