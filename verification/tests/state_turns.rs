use scythe_engine::campaign::{Faction, Player, PlayerMat};
use scythe_engine::game::Resource;
use scythe_engine::game::mechs::Mech;
use scythe_engine::game::recruits::Recruit;
use scythe_engine::game::upgrades::{PrimaryUpgrade, SecondaryUpgrade};
use scythe_engine::game_state::PlayerState;
use scythe_engine::template::SecondaryAction;
use scythe_engine::turn::execute::turn;
use scythe_engine::turn::turnmask::{Building, Move, Movement, Primary, Produce, Secondary, Tile, TurnMask};

fn mat() -> PlayerMat {
    PlayerMat {
        name: "Foundry".to_string(),
        starting_index: 1,
        starting_coins: 4,
        starting_popularity: 2,
        move_secondary: SecondaryAction::Build,
        trade_secondary: SecondaryAction::Enlist,
        produce_secondary: SecondaryAction::Deploy,
        bolster_secondary: SecondaryAction::Upgrade,
        upgrade_cost: 2,
        upgrade_evolutions: 1,
        upgrade_coins: 3,
        deploy_cost: 1,
        deploy_evolutions: 2,
        deploy_coins: 2,
        build_cost: 2,
        build_evolutions: 1,
        build_coins: 1,
        enlist_cost: 2,
        enlist_evolutions: 2,
        enlist_coins: 0,
    }
}

fn faction() -> Faction {
    Faction {
        name: "North".to_string(),
        starting_power: 3,
        starting_cards: 1,
        first_starting_field: Tile::Village,
        second_starting_field: Tile::Mountain,
    }
}

fn player() -> Player {
    Player {
        name: "Avery".to_string(),
        bonus_starting_coins: 0,
        bonus_starting_power: 0,
        bonus_starting_popularity: 0,
    }
}

fn base_state() -> PlayerState {
    PlayerState::new(&player(), &faction(), &mat())
}

#[test]
fn setup_matches_templates() {
    let s = base_state();
    assert_eq!(s.coins, 4);
    assert_eq!(s.popularity.popularity, 2);
    assert_eq!(s.military.power, 3);
    assert_eq!(s.cards, 1);
    assert_eq!(s.fields, 2);
    assert_eq!(s.turns, 0);
    assert_eq!(s.production.population, 1);
    assert_eq!(s.production.metal, 1);
    assert_eq!(s.production.total(), 2);
    assert_eq!(s.resources.total(), 0);
    assert_eq!(s.stars(), 0);
    assert!(!s.has_won());
}

#[test]
fn tax_grants_one_coin_and_two_when_evolved() {
    let s = base_state();
    let taxed = turn(s, &TurnMask::PrimaryOnly(Primary::Tax));
    assert_eq!(taxed.coins, 5);
    assert_eq!(taxed.turns, 1);

    let mut evolved = s;
    evolved.upgrades.tax_evolved = true;
    let taxed2 = turn(evolved, &TurnMask::PrimaryOnly(Primary::Tax));
    assert_eq!(taxed2.coins, 6);
}

#[test]
fn trade_spends_a_coin_and_grants_two_resources() {
    let s = base_state();
    let traded = turn(
        s,
        &TurnMask::PrimaryOnly(Primary::Trade(Resource::Wood, Resource::Oil)),
    );
    assert_eq!(traded.coins, 3);
    assert_eq!(traded.resources.wood, 1);
    assert_eq!(traded.resources.oil, 1);
    assert_eq!(traded.military.power, 3);
}

#[test]
fn trade_with_armory_grants_military() {
    let mut s = base_state();
    s.buildings.armory_built = true;
    let traded = turn(
        s,
        &TurnMask::PrimaryOnly(Primary::Trade(Resource::Food, Resource::Food)),
    );
    assert_eq!(traded.resources.food, 2);
    assert_eq!(traded.military.power, 4);
}

// Scenario: a player without coins proposes a trade; the checker rejects
// it and the state is untouched.
#[test]
fn trade_without_coins_is_rejected() {
    let mut s = base_state();
    s.coins = 0;
    assert!(!scythe_engine::game::turnhelper::check_primary(
        &s,
        &Primary::Trade(Resource::Wood, Resource::Wood)
    ));
    let after = turn(
        s,
        &TurnMask::PrimaryOnly(Primary::Trade(Resource::Wood, Resource::Wood)),
    );
    assert_eq!(after, s);
}

#[test]
fn promote_grants_popularity_and_monument_bolster_bonus() {
    let s = base_state();
    let promoted = turn(s, &TurnMask::PrimaryOnly(Primary::Promote));
    assert_eq!(promoted.coins, 3);
    assert_eq!(promoted.popularity.popularity, 3);

    let mut m = base_state();
    m.buildings.monument_built = true;
    let bolstered = turn(m, &TurnMask::PrimaryOnly(Primary::Bolster));
    assert_eq!(bolstered.military.power, 5);
    assert_eq!(bolstered.popularity.popularity, 3);
}

#[test]
fn enforce_grants_cards() {
    let s = base_state();
    let enforced = turn(s, &TurnMask::PrimaryOnly(Primary::Enforce));
    assert_eq!(enforced.coins, 3);
    assert_eq!(enforced.cards, 2);

    let mut e = base_state();
    e.upgrades.card_evolved = true;
    let enforced2 = turn(e, &TurnMask::PrimaryOnly(Primary::Enforce));
    assert_eq!(enforced2.cards, 3);
}

// Scenario: without the move upgrade a three-step move is rejected; the
// two-step move over the same tiles is accepted.
#[test]
fn three_step_move_needs_the_evolution() {
    let mut s = base_state();
    s.production.wood = 3;
    let step = Movement(Tile::Woods, Tile::Farm);
    assert!(!scythe_engine::game::turnhelper::check_primary(
        &s,
        &Primary::Move(Move::Move3(step, step, step))
    ));
    assert!(scythe_engine::game::turnhelper::check_primary(
        &s,
        &Primary::Move(Move::Move2(step, step))
    ));

    let mut evolved = s;
    evolved.upgrades.move_evolved = true;
    assert!(scythe_engine::game::turnhelper::check_primary(
        &evolved,
        &Primary::Move(Move::Move3(step, step, step))
    ));
}

#[test]
fn moving_relocates_workers_and_conserves_the_total() {
    let mut s = base_state();
    s.production.wood = 2;
    s.production.population = 0;
    s.production.metal = 0;
    let before_total = s.production.total();
    let moved = turn(
        s,
        &TurnMask::PrimaryOnly(Primary::Move(Move::Move1(Movement(Tile::Woods, Tile::Farm)))),
    );
    assert_eq!(moved.production.wood, 1);
    assert_eq!(moved.production.food, 1);
    assert_eq!(moved.production.total(), before_total);
}

// Scenario: producing at a tile with three committed workers grants three
// resources, and the end-game score follows the documented formula with
// integer division truncation.
#[test]
fn produce_with_three_workers_and_score_formula() {
    let mut s = base_state();
    s.production.metal = 3;
    s.production.population = 0;
    s.production.wood = 0;
    let produced = turn(
        s,
        &TurnMask::PrimaryOnly(Primary::Produce(Produce::Produce1(Tile::Mountain))),
    );
    assert_eq!(produced.resources.metal, 3);
    // score = coins + stars * star_mult + fields * fields_mult
    //       + (resources_total / 2) * resources_mult, truncating
    let expected = produced.coins
        + produced.stars() * produced.popularity.star_multiplier()
        + produced.fields * produced.popularity.fields_multiplier()
        + (produced.resources.total() / 2) * produced.popularity.resources_multiplier();
    assert_eq!(produced.total_coins(), expected);
    assert_eq!(produced.total_coins(), 4 + 0 + 2 * 2 + (3 / 2) * 1);
}

#[test]
fn produce_penalties_apply_by_tier() {
    let mut s = base_state();
    s.production.metal = 4;
    s.production.population = 0;
    let produced = turn(
        s,
        &TurnMask::PrimaryOnly(Primary::Produce(Produce::Produce1(Tile::Mountain))),
    );
    assert_eq!(produced.military.power, 2);
    assert_eq!(produced.popularity.popularity, 2);
    assert_eq!(produced.coins, 4);

    let mut t = base_state();
    t.production.metal = 8;
    t.production.population = 0;
    t.production.wood = 0;
    let produced8 = turn(
        t,
        &TurnMask::PrimaryOnly(Primary::Produce(Produce::Produce1(Tile::Mountain))),
    );
    assert_eq!(produced8.military.power, 2);
    assert_eq!(produced8.popularity.popularity, 1);
    assert_eq!(produced8.coins, 3);
}

#[test]
fn village_production_doubles_population_up_to_the_cap() {
    let mut s = base_state();
    s.production.population = 3;
    s.production.metal = 0;
    let produced = turn(
        s,
        &TurnMask::PrimaryOnly(Primary::Produce(Produce::Produce1(Tile::Village))),
    );
    assert_eq!(produced.production.population, 6);

    let mut c = base_state();
    c.production.population = 6;
    c.production.metal = 0;
    let capped = turn(
        c,
        &TurnMask::PrimaryOnly(Primary::Produce(Produce::Produce1(Tile::Village))),
    );
    assert_eq!(capped.production.population, 8);
    assert!(capped.production.star);
}

// Scenario: building the mill on the metal tile makes every later produce
// also yield the mill tile's resource.
#[test]
fn mill_grants_its_tile_on_every_produce() {
    let mut s = base_state();
    s.resources.wood = 3;
    let built = turn(
        s,
        &TurnMask::PrimaryAndSecondary(
            Primary::Tax,
            Secondary::Build(Building::Mill(Tile::Mountain)),
        ),
    );
    assert!(built.buildings.mill_built);
    assert_eq!(built.buildings.mill_location, Some(Tile::Mountain));
    assert_eq!(built.resources.wood, 0);
    // tax coin plus the build category's bonus coin
    assert_eq!(built.coins, 6);

    let mut with_workers = built;
    with_workers.production.metal = 2;
    with_workers.production.wood = 1;
    let produced = turn(
        with_workers,
        &TurnMask::PrimaryOnly(Primary::Produce(Produce::Produce1(Tile::Woods))),
    );
    assert_eq!(produced.resources.wood, 1);
    // the mill's recorded tile also yields, although it was not chosen
    assert_eq!(produced.resources.metal, 2);
}

#[test]
fn unaffordable_secondary_is_skipped() {
    let s = base_state();
    // Tax links to Build; the build cost is 3 wood and none is held.
    let after = turn(
        s,
        &TurnMask::PrimaryAndSecondary(Primary::Tax, Secondary::Build(Building::Armory)),
    );
    assert_eq!(after.coins, 5);
    assert!(!after.buildings.armory_built);
}

#[test]
fn upgrade_secondary_evolves_and_grants_coins() {
    let mut s = base_state();
    s.resources.oil = 3;
    // Bolster links to Upgrade; its cost is 2 + 1 oil.
    let after = turn(
        s,
        &TurnMask::PrimaryAndSecondary(
            Primary::Bolster,
            Secondary::Upgrade(PrimaryUpgrade::Move, SecondaryUpgrade::Deploy),
        ),
    );
    assert!(after.upgrades.move_evolved);
    assert_eq!(after.upgrades.deploy_evolution_cost, 1);
    assert_eq!(after.resources.oil, 0);
    // 4 - 1 bolster + 3 upgrade bonus coins
    assert_eq!(after.coins, 6);
}

#[test]
fn deploy_secondary_marks_the_mech_and_pays_metal() {
    let mut s = base_state();
    s.resources.metal = 3;
    // Produce links to Deploy; its cost is 1 + 2 metal.
    s.production.wood = 1;
    let after = turn(
        s,
        &TurnMask::PrimaryAndSecondary(
            Primary::Produce(Produce::Produce1(Tile::Woods)),
            Secondary::Deploy(Mech::Second),
        ),
    );
    assert!(after.mechs.second_deployed);
    assert_eq!(after.resources.metal, 0);
    assert_eq!(after.coins, 4 + 2);
}

#[test]
fn enlist_secondary_fills_both_slots_and_recruit_bonus_applies() {
    let mut s = base_state();
    s.resources.food = 4;
    s.recruits.secondary_card_recruited = true;
    // Trade links to Enlist; its cost is 2 + 2 food.
    let after = turn(
        s,
        &TurnMask::PrimaryAndSecondary(
            Primary::Trade(Resource::Wood, Resource::Metal),
            Secondary::Enlist(Recruit::Coin, Recruit::Power),
        ),
    );
    assert!(after.recruits.secondary_coin_recruited);
    assert!(after.recruits.onetime_military_recruited);
    assert_eq!(after.resources.food, 0);
    // the already-recruited card bonus grants one card
    assert_eq!(after.cards, 2);
}

// Scenario: the sixth star wins the game, and not before.
#[test]
fn six_stars_win_exactly_at_six() {
    let mut s = base_state();
    s.upgrades.star = true;
    s.mechs.star = true;
    s.buildings.star = true;
    s.recruits.star = true;
    s.military.star = true;
    assert_eq!(s.stars(), 5);
    assert!(!s.has_won());
    s.popularity.star = true;
    assert_eq!(s.stars(), 6);
    assert!(s.has_won());
}

// Star monotonicity, exercised: once achieved, a star survives turns.
#[test]
fn stars_survive_later_turns() {
    let mut s = base_state();
    s.military.star = true;
    s.popularity.star = true;
    let after = turn(
        s,
        &TurnMask::PrimaryOnly(Primary::Produce(Produce::Produce1(Tile::Village))),
    );
    assert!(after.military.star);
    assert!(after.popularity.star);
    let after2 = turn(after, &TurnMask::PrimaryOnly(Primary::Tax));
    assert!(after2.military.star);
    assert!(after2.popularity.star);
}

#[test]
fn military_and_popularity_clamp_and_star() {
    let mut s = base_state();
    s.military.power = 15;
    s.upgrades.power_evolved = true;
    let after = turn(s, &TurnMask::PrimaryOnly(Primary::Bolster));
    assert_eq!(after.military.power, 16);
    assert!(after.military.star);

    let mut p = base_state();
    p.popularity.popularity = 17;
    p.upgrades.popularity_evolved = true;
    let after2 = turn(p, &TurnMask::PrimaryOnly(Primary::Promote));
    assert_eq!(after2.popularity.popularity, 18);
    assert!(after2.popularity.star);
}

#[test]
fn turn_counter_increments_once_per_executed_primary() {
    let s = base_state();
    let one = turn(s, &TurnMask::PrimaryOnly(Primary::Tax));
    let two = turn(
        one,
        &TurnMask::PrimaryAndSecondary(Primary::Tax, Secondary::Build(Building::Armory)),
    );
    assert_eq!(two.turns, 2);
}

#[test]
fn linked_secondary_lookup_round_trip() {
    let s = base_state();
    assert_eq!(s.get_secondary(scythe_engine::template::PrimaryAction::Tax), SecondaryAction::Build);
    assert_eq!(s.get_secondary(scythe_engine::template::PrimaryAction::Move), SecondaryAction::Build);
    assert_eq!(s.get_primary(SecondaryAction::Build), scythe_engine::template::PrimaryAction::Tax);
    assert_eq!(s.get_primary(SecondaryAction::Enlist), scythe_engine::template::PrimaryAction::Promote);
    assert_eq!(s.get_primary(SecondaryAction::Deploy), scythe_engine::template::PrimaryAction::Produce);
    assert_eq!(s.get_primary(SecondaryAction::Upgrade), scythe_engine::template::PrimaryAction::Bolster);
}

#[test]
fn can_produce_tiers_gate_on_payment() {
    let mut s = base_state();
    s.production.metal = 4;
    s.military.power = 0;
    assert!(!s.can_produce());
    s.military.power = 1;
    assert!(s.can_produce());

    s.production.metal = 6;
    s.popularity.popularity = 0;
    assert!(!s.can_produce());
    s.popularity.popularity = 1;
    assert!(s.can_produce());

    s.production.metal = 8;
    s.coins = 0;
    assert!(!s.can_produce());
    s.coins = 1;
    assert!(s.can_produce());
}
