use scythe_engine::game::Resource;
use scythe_engine::game::Tile;
use scythe_engine::game::board::{Board, ResourceField};
use scythe_engine::game::game::{Game, PlayerInfo};
use scythe_engine::game::mechs::Mech;
use scythe_engine::game::player::PlayerTemplate;
use scythe_engine::game::production::Worker;
use scythe_engine::template::{
    BoardTemplate, CombatPower, Faction, FactionAbility, FieldTemplate, HomeTemplate,
    MobilityPower, Player, PlayerMat, Position, PrimaryAction, SecondaryAction,
};
use scythe_engine::turn::check::{check_primary, CheckError};
use scythe_engine::turn::mask::{
    MechMask, MechMove, Move, Movement, NormalMove, Primary, Produce, Trade, TradeUnit,
    UnitMovement, UnitPosition, WorkerMask,
};

fn field(x: i8, y: i8, tile: Tile) -> FieldTemplate {
    FieldTemplate { position: Position(x, y), tile, tunnelable: false, explorer_token: false }
}

fn board_template() -> BoardTemplate {
    BoardTemplate {
        fields: vec![
            field(0, 0, Tile::Farm),
            field(1, 0, Tile::Mountain),
            field(2, 0, Tile::Lake),
            field(0, 1, Tile::Woods),
        ],
        rivers: vec![(Position(0, 0), Position(1, 0))],
        starting_locations: vec![HomeTemplate {
            position: Position(5, 5),
            start1: Position(0, 0),
            start2: Position(1, 0),
        }],
    }
}

fn player_template(starting_coins: u32) -> PlayerTemplate {
    PlayerTemplate {
        player: Player {
            name: "Avery".to_string(),
            bonus_starting_coins: 0,
            bonus_starting_power: 0,
            bonus_starting_popularity: 0,
        },
        faction: Faction {
            name: "North".to_string(),
            starting_power: 3,
            starting_cards: 1,
            riverwalk_tile1: Tile::Farm,
            riverwalk_tile2: Tile::Village,
            mobility_power: MobilityPower::Township,
            combat_power: CombatPower::PeoplesArmy,
            faction_ability: FactionAbility::Relentless,
        },
        player_mat: PlayerMat {
            name: "Foundry".to_string(),
            starting_index: 1,
            starting_coins,
            starting_popularity: 2,
            move_secondary: SecondaryAction::Build,
            trade_secondary: SecondaryAction::Enlist,
            produce_secondary: SecondaryAction::Deploy,
            bolster_secondary: SecondaryAction::Upgrade,
            upgrade_cost: 2,
            upgrade_evolutions: 1,
            upgrade_coins: 3,
            deploy_cost: 1,
            deploy_evolutions: 2,
            deploy_coins: 2,
            build_cost: 2,
            build_evolutions: 1,
            build_coins: 1,
            enlist_cost: 2,
            enlist_evolutions: 2,
            enlist_coins: 0,
        },
    }
}

fn one_player_game(starting_coins: u32) -> Game {
    Game::new(
        &board_template(),
        &vec![PlayerInfo { template: player_template(starting_coins), start_location_index: 0 }],
    )
    .unwrap()
}

fn hop(x: i8, y: i8) -> NormalMove {
    NormalMove {
        position: Position(x, y),
        resources: ResourceField { wood: 0, metal: 0, oil: 0, food: 0 },
    }
}

#[test]
fn duplicate_positions_fail_board_construction() {
    let mut template = board_template();
    template.fields.push(field(0, 0, Tile::Woods));
    assert!(Board::from_template(&template).is_none());
    assert!(Board::from_template(&board_template()).is_some());
}

#[test]
fn board_lookup_and_rivers() {
    let board = Board::from_template(&board_template()).unwrap();
    assert_eq!(board.fields.len(), 5);
    let farm = board.get_field(&Position(0, 0)).unwrap();
    let mountain = board.get_field(&Position(1, 0)).unwrap();
    let woods = board.get_field(&Position(0, 1)).unwrap();
    assert_eq!(board.fields[farm].tile, Tile::Farm);
    assert_eq!(board.fields[4].tile, Tile::Home);
    assert!(board.get_field(&Position(9, 9)).is_none());
    assert!(board.is_river(farm, mountain));
    assert!(board.is_river(mountain, farm));
    assert!(!board.is_river(farm, woods));
}

#[test]
fn game_setup_places_units() {
    let game = one_player_game(4);
    assert_eq!(game.players.len(), 1);
    assert_eq!(game.get_round(), 0);
    assert_eq!(game.get_active_player(), 0);
    let p = &game.players[0];
    assert_eq!(game.board.fields[p.character.location].tile, Tile::Home);
    assert_eq!(p.production.get(Worker::First), Some(0));
    assert_eq!(p.production.get(Worker::Second), Some(1));
    assert_eq!(p.production.get(Worker::Third), None);
    assert_eq!(p.production.deployed_workers, 2);
}

#[test]
fn territory_and_score_on_the_board() {
    let game = one_player_game(4);
    let p = &game.players[0];
    let territory = p.controlled_territory();
    assert_eq!(territory.len(), 3);
    assert_eq!(p.territory_size(Some(&territory)), 3);
    assert_eq!(p.recources(&game.board, Some(&territory)).total(), 0);
    // coins + 0 stars + 3 fields * 2 + 0 resources
    assert_eq!(p.total_coins(&game.board), 4 + 3 * 2);
}

#[test]
fn tax_is_always_legal() {
    let game = one_player_game(0);
    assert_eq!(check_primary(&game, &Primary::Tax), None);
}

#[test]
fn coin_actions_need_a_coin() {
    let game = one_player_game(0);
    let trade = Primary::Trade(Trade::Trade1(TradeUnit {
        unit: UnitPosition::Character,
        from: Resource::Wood,
        to: Resource::Wood,
    }));
    assert_eq!(check_primary(&game, &trade), Some(CheckError::NotEnoughCoinsToTrade));
    assert_eq!(check_primary(&game, &Primary::Promote), Some(CheckError::NotEnoughCoinsToPromote));
    assert_eq!(check_primary(&game, &Primary::Bolster), Some(CheckError::NotEnoughCoinsToBolster));
    assert_eq!(check_primary(&game, &Primary::Enforce), Some(CheckError::NotEnoughCoinsToEnforce));

    let funded = one_player_game(4);
    assert_eq!(check_primary(&funded, &Primary::Promote), None);
    assert_eq!(check_primary(&funded, &Primary::Bolster), None);
    assert_eq!(check_primary(&funded, &Primary::Enforce), None);
}

#[test]
fn three_step_board_move_needs_the_evolution() {
    let game = one_player_game(4);
    let step = UnitMovement::Character(Movement::Single(hop(0, 0)));
    let worker_step = UnitMovement::Worker(Worker::First, Movement::Single(hop(0, 1)));
    let mech_step = UnitMovement::Mech(Mech::First, Movement::Single(MechMove {
        position: Position(0, 1),
        workers: WorkerMask::empty(),
        resources: ResourceField { wood: 0, metal: 0, oil: 0, food: 0 },
    }));
    assert_eq!(
        check_primary(&game, &Primary::Move(Move::Move3(step, worker_step, mech_step))),
        Some(CheckError::MoveNotEvolved)
    );
}

#[test]
fn character_movement_rules() {
    let game = one_player_game(4);
    let bad = UnitMovement::Character(Movement::Single(hop(9, 9)));
    assert_eq!(
        check_primary(&game, &Primary::Move(Move::Move1(bad))),
        Some(CheckError::InvalidTargetPosition)
    );
    let both_bad = UnitMovement::Character(Movement::Double(hop(9, 9), hop(8, 8)));
    assert_eq!(
        check_primary(&game, &Primary::Move(Move::Move1(both_bad))),
        Some(CheckError::InvalidTargetPositions)
    );
    let first_bad = UnitMovement::Character(Movement::Double(hop(9, 9), hop(0, 0)));
    assert_eq!(
        check_primary(&game, &Primary::Move(Move::Move1(first_bad))),
        Some(CheckError::InvalidFirstTargetPosition)
    );
    let second_bad = UnitMovement::Character(Movement::Double(hop(0, 0), hop(9, 9)));
    assert_eq!(
        check_primary(&game, &Primary::Move(Move::Move1(second_bad))),
        Some(CheckError::InvalidSecondTargetPosition)
    );
    let good = UnitMovement::Character(Movement::Single(hop(0, 0)));
    assert_eq!(check_primary(&game, &Primary::Move(Move::Move1(good))), None);
    assert_eq!(
        check_primary(&game, &Primary::Move(Move::Move2(good, good))),
        Some(CheckError::CharacterAlreadyMoved)
    );
    let two_hops = UnitMovement::Character(Movement::Double(hop(0, 0), hop(1, 0)));
    assert_eq!(check_primary(&game, &Primary::Move(Move::Move1(two_hops))), None);
}

#[test]
fn worker_movement_rules() {
    let game = one_player_game(4);
    let undeployed = UnitMovement::Worker(Worker::Third, Movement::Single(hop(0, 1)));
    assert_eq!(
        check_primary(&game, &Primary::Move(Move::Move1(undeployed))),
        Some(CheckError::WorkerNotDeployed)
    );
    let step = UnitMovement::Worker(Worker::First, Movement::Single(hop(0, 1)));
    assert_eq!(check_primary(&game, &Primary::Move(Move::Move1(step))), None);
    assert_eq!(
        check_primary(&game, &Primary::Move(Move::Move2(step, step))),
        Some(CheckError::WorkerAlreadyMoved)
    );
}

#[test]
fn carrying_resources_needs_them_at_the_source() {
    let game = one_player_game(4);
    // the source field starts with an empty inventory
    let greedy = UnitMovement::Worker(Worker::First, Movement::Single(NormalMove {
        position: Position(0, 1),
        resources: ResourceField { wood: 1, metal: 0, oil: 0, food: 0 },
    }));
    assert_eq!(
        check_primary(&game, &Primary::Move(Move::Move1(greedy))),
        Some(CheckError::NotEnoughResourcesToMove)
    );
}

#[test]
fn mech_movement_rules() {
    let game = one_player_game(4);
    let undeployed = UnitMovement::Mech(Mech::First, Movement::Single(MechMove {
        position: Position(0, 1),
        workers: WorkerMask::empty(),
        resources: ResourceField { wood: 0, metal: 0, oil: 0, food: 0 },
    }));
    assert_eq!(
        check_primary(&game, &Primary::Move(Move::Move1(undeployed))),
        Some(CheckError::MechNotDeployed)
    );

    let mut game = one_player_game(4);
    // station a mech on the first worker's field
    game.players[0].mechs.deploy(Mech::First, 0);

    // carrying the worker away from its own field is fine
    let carry = UnitMovement::Mech(Mech::First, Movement::Single(MechMove {
        position: Position(0, 1),
        workers: WorkerMask::get_worker(Worker::First),
        resources: ResourceField { wood: 0, metal: 0, oil: 0, food: 0 },
    }));
    assert_eq!(check_primary(&game, &Primary::Move(Move::Move1(carry))), None);

    // a worker standing elsewhere cannot be picked up
    let wrong_worker = UnitMovement::Mech(Mech::First, Movement::Single(MechMove {
        position: Position(0, 1),
        workers: WorkerMask::get_worker(Worker::Second),
        resources: ResourceField { wood: 0, metal: 0, oil: 0, food: 0 },
    }));
    assert_eq!(
        check_primary(&game, &Primary::Move(Move::Move1(wrong_worker))),
        Some(CheckError::SourceMissingWorkers)
    );

    // dropping the worker onto the field it already occupies is refused
    let drop_in_place = UnitMovement::Mech(Mech::First, Movement::Single(MechMove {
        position: Position(0, 0),
        workers: WorkerMask::get_worker(Worker::First),
        resources: ResourceField { wood: 0, metal: 0, oil: 0, food: 0 },
    }));
    assert_eq!(
        check_primary(&game, &Primary::Move(Move::Move1(drop_in_place))),
        Some(CheckError::TargetHasWorkers)
    );

    // the same mech cannot move in two sub-steps
    let plain = UnitMovement::Mech(Mech::First, Movement::Single(MechMove {
        position: Position(0, 1),
        workers: WorkerMask::empty(),
        resources: ResourceField { wood: 0, metal: 0, oil: 0, food: 0 },
    }));
    assert_eq!(
        check_primary(&game, &Primary::Move(Move::Move2(plain, plain))),
        Some(CheckError::MechAlreadyMoved)
    );
}

#[test]
fn trade_unit_resolution() {
    let game = one_player_game(4);
    let unit = |u: UnitPosition| TradeUnit { unit: u, from: Resource::Wood, to: Resource::Wood };
    assert_eq!(
        check_primary(
            &game,
            &Primary::Trade(Trade::Trade1(unit(UnitPosition::Worker(Worker::Third))))
        ),
        Some(CheckError::UnitNotDeployed)
    );
    assert_eq!(
        check_primary(
            &game,
            &Primary::Trade(Trade::Trade2(
                unit(UnitPosition::Worker(Worker::Third)),
                unit(UnitPosition::Worker(Worker::Fourth))
            ))
        ),
        Some(CheckError::UnitsNotDeployed)
    );
    assert_eq!(
        check_primary(
            &game,
            &Primary::Trade(Trade::Trade2(
                unit(UnitPosition::Worker(Worker::Third)),
                unit(UnitPosition::Character)
            ))
        ),
        Some(CheckError::Unit1NotDeployed)
    );
    assert_eq!(
        check_primary(
            &game,
            &Primary::Trade(Trade::Trade2(
                unit(UnitPosition::Character),
                unit(UnitPosition::Worker(Worker::Third))
            ))
        ),
        Some(CheckError::Unit2NotDeployed)
    );
    // the unit's own field is controlled, but it holds no resources
    assert_eq!(
        check_primary(&game, &Primary::Trade(Trade::Trade1(unit(UnitPosition::Character)))),
        Some(CheckError::NotEnoughResourcesToTrade)
    );
}

#[test]
fn trading_on_an_enemy_field_is_refused() {
    // two players share the same starting location, so the second
    // player's units stand on fields the first player controls
    let template = board_template();
    let infos = vec![
        PlayerInfo { template: player_template(4), start_location_index: 0 },
        PlayerInfo { template: player_template(4), start_location_index: 0 },
    ];
    let mut game = Game::new(&template, &infos).unwrap();
    game.turn = 1;
    assert_eq!(game.get_active_player(), 1);
    let trade = Primary::Trade(Trade::Trade1(TradeUnit {
        unit: UnitPosition::Character,
        from: Resource::Wood,
        to: Resource::Wood,
    }));
    assert_eq!(check_primary(&game, &trade), Some(CheckError::FieldControlledByEnemy));
}

#[test]
fn produce_rules_on_the_board() {
    let game = one_player_game(4);
    assert_eq!(
        check_primary(&game, &Primary::Produce(Produce::Produce1(Worker::First))),
        None
    );
    assert_eq!(
        check_primary(&game, &Primary::Produce(Produce::Produce1(Worker::Third))),
        Some(CheckError::ProduceWorkerNotDeployed)
    );
    assert_eq!(
        check_primary(&game, &Primary::Produce(Produce::Produce2(Worker::First, Worker::First))),
        Some(CheckError::DuplicateProduceTile)
    );
    assert_eq!(
        check_primary(
            &game,
            &Primary::Produce(Produce::Produce3(Worker::First, Worker::Second, Worker::Third))
        ),
        Some(CheckError::ProduceNotEvolved)
    );
}

#[test]
fn producing_on_a_lake_is_refused() {
    let mut template = board_template();
    template.starting_locations[0].start1 = Position(2, 0);
    let game = Game::new(
        &template,
        &vec![PlayerInfo { template: player_template(4), start_location_index: 0 }],
    )
    .unwrap();
    assert_eq!(
        check_primary(&game, &Primary::Produce(Produce::Produce1(Worker::First))),
        Some(CheckError::UnproducibleTile)
    );
}

#[test]
fn rejections_carry_their_wording() {
    assert_eq!(CheckError::MoveNotEvolved.describe(), "Move3 is not evolved");
    assert_eq!(
        CheckError::NotEnoughResourcesToMove.describe(),
        "Not enough resources to take on this move"
    );
    assert_eq!(
        CheckError::SourceMissingWorkers.describe(),
        "Source field does not have all the required workers stationed"
    );
}

#[test]
fn checker_is_pure_on_the_board() {
    let game = one_player_game(0);
    let trade = Primary::Trade(Trade::Trade1(TradeUnit {
        unit: UnitPosition::Character,
        from: Resource::Wood,
        to: Resource::Wood,
    }));
    assert_eq!(check_primary(&game, &trade), check_primary(&game, &trade));
}

#[test]
fn masks_support_the_set_operations() {
    let w1 = WorkerMask::get_worker(Worker::First);
    let w2 = WorkerMask::get_worker(Worker::Second);
    let both = w1.union(w2);
    assert!(both.contains(w1));
    assert!(both.contains(w2));
    assert!(both.contains_worker(Worker::First));
    assert!(!both.contains_worker(Worker::Third));
    assert!(both.intersects(w1));
    assert!(!w1.intersects(w2));
    assert_eq!(both.difference(w1), w2);
    assert!(WorkerMask::all().contains(both));
    assert!(!WorkerMask::empty().intersects(both));

    let m = MechMask::get_mech(Mech::Fourth);
    assert!(MechMask::all().contains(m));
    assert!(m.contains_mech(Mech::Fourth));
    assert!(!m.contains_mech(Mech::First));
}

#[test]
fn player_links_resolve_on_the_board_state() {
    let game = one_player_game(4);
    let p = &game.players[0];
    assert_eq!(p.get_secondary(PrimaryAction::Tax), SecondaryAction::Build);
    assert_eq!(p.get_primary(SecondaryAction::Deploy), PrimaryAction::Produce);
    assert!(p.can_produce());
    assert!(!p.has_won());
    assert_eq!(p.stars(), 0);
}
