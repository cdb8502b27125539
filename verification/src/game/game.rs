use vstd::prelude::*;

use crate::game::board::{spec_board_fields, spec_rivers, spec_template_positions, Board};
use crate::game::board::positions_unique;
use crate::game::buildings::Building;
use crate::game::player::{PlayerState, PlayerTemplate};
use crate::template::{BoardTemplate, HomeTemplate};

verus! {

/// A whole game: the shared board, every player's state, and the turn
/// counter that decides whose turn it is.
#[derive(Debug, Clone)]
pub struct Game {
    pub board: Board,
    pub players: Vec<PlayerState>,
    pub turn: u32,
}

/// One player's setup: the templates and which starting location on the
/// board the player takes.
#[derive(Debug, Clone)]
pub struct PlayerInfo {
    pub template: PlayerTemplate,
    pub start_location_index: usize,
}

/// The starting locations a board resolves from its template, in
/// template order: a location is kept exactly when its home and both
/// starting worker positions are fields of the board.
pub open spec fn spec_starting_locations(board: Board, locs: Seq<HomeTemplate>) -> Seq<
    (int, int, int),
>
    decreases locs.len(),
{
    if locs.len() == 0 {
        Seq::empty()
    } else {
        let prefix = spec_starting_locations(board, locs.drop_last());
        let home = locs.last();
        match (
            board.spec_get_field(home.position),
            board.spec_get_field(home.start1),
            board.spec_get_field(home.start2),
        ) {
            (Some(h), Some(s1), Some(s2)) => prefix.push((h, s1, s2)),
            _ => prefix,
        }
    }
}

/// The player setups whose starting location index resolves, in setup
/// order.
pub open spec fn spec_selected_infos(infos: Seq<PlayerInfo>, nlocs: int) -> Seq<PlayerInfo>
    decreases infos.len(),
{
    if infos.len() == 0 {
        Seq::empty()
    } else {
        let prefix = spec_selected_infos(infos.drop_last(), nlocs);
        if (infos.last().start_location_index as int) < nlocs {
            prefix.push(infos.last())
        } else {
            prefix
        }
    }
}

/// Selection never lengthens the setup list.
proof fn lemma_selected_len(infos: Seq<PlayerInfo>, nlocs: int)
    ensures
        spec_selected_infos(infos, nlocs).len() <= infos.len(),
    decreases infos.len(),
{
    if infos.len() > 0 {
        lemma_selected_len(infos.drop_last(), nlocs);
    }
}

/// Does the player hold exactly the fresh setup from the template, with
/// the character at home and the two starting workers on their fields?
pub open spec fn spec_player_setup(
    p: PlayerState,
    t: PlayerTemplate,
    h: int,
    s1: int,
    s2: int,
) -> bool {
    &&& p.move_secondary == t.player_mat.move_secondary
    &&& p.trade_secondary == t.player_mat.trade_secondary
    &&& p.produce_secondary == t.player_mat.produce_secondary
    &&& p.bolster_secondary == t.player_mat.bolster_secondary
    &&& p.upgrades == crate::game::upgrades::UpgradesState::spec_new(t.player_mat)
    &&& p.mechs.wf()
    &&& p.mechs.mechs@ == Seq::new(4, |i: int| None::<usize>)
    &&& !p.mechs.star
    &&& p.buildings == crate::game::buildings::BuildingsState::spec_new()
    &&& p.recruits == crate::game::recruits::RecruitsState::spec_new()
    &&& p.military.power == t.faction.starting_power + t.player.bonus_starting_power
    &&& !p.military.star
    &&& p.popularity.popularity == t.player_mat.starting_popularity
        + t.player.bonus_starting_popularity
    &&& !p.popularity.star
    &&& p.production.wf()
    &&& p.production.deployed_workers == 2
    &&& p.production.workers@ == seq![
        Some(s1 as usize),
        Some(s2 as usize),
        None,
        None,
        None,
        None,
        None,
        None,
    ]
    &&& !p.production.star
    &&& p.character.location == h as usize
    &&& p.coins == t.player_mat.starting_coins + t.player.bonus_starting_coins
    &&& p.cards == t.faction.starting_cards
    &&& p.combat_wins == 0
}

impl Game {
    /// Shape invariant: board well-formed, at least one player, every
    /// player's references inside the arena.
    pub open spec fn wf(self) -> bool {
        &&& self.board.wf()
        &&& 1 <= self.players@.len() <= u32::MAX
        &&& forall|k: int|
            0 <= k < self.players@.len() ==> #[trigger] self.players@[k].wf(
                self.board.fields@.len() as int,
            )
    }

    /// The player whose turn it is.
    pub open spec fn spec_active_index(self) -> int {
        (self.turn as int) % (self.players@.len() as int)
    }

    /// Sets a game up from a board template and the players' setups.
    /// Returns `None` exactly when the board template defines a position
    /// twice. A starting location with an unresolved position is
    /// dropped, and so is a player whose location index does not
    /// resolve; every other setup yields its player, freshly created at
    /// its location, in setup order.
    pub fn new(board_template: &BoardTemplate, player_templates: &Vec<PlayerInfo>) -> (r: Option<
        Game,
    >)
        requires
            player_templates@.len() <= u32::MAX,
            forall|k: int|
                0 <= k < player_templates@.len() ==> {
                    let t = #[trigger] player_templates@[k].template;
                    &&& t.faction.starting_power + t.player.bonus_starting_power <= u8::MAX
                    &&& t.player_mat.starting_popularity + t.player.bonus_starting_popularity
                        <= u8::MAX
                    &&& t.player_mat.starting_coins + t.player.bonus_starting_coins <= u32::MAX
                },
        ensures
            r is Some <==> positions_unique(spec_template_positions(*board_template)),
            r matches Some(g) ==> {
                let locs = spec_starting_locations(g.board, board_template.starting_locations@);
                let chosen = spec_selected_infos(player_templates@, locs.len() as int);
                &&& g.board.fields@ == spec_board_fields(*board_template)
                &&& g.board.rivers@ == spec_rivers(
                    spec_board_fields(*board_template),
                    board_template.rivers@,
                )
                &&& g.board.wf()
                &&& g.turn == 0
                &&& g.players@.len() == chosen.len()
                &&& forall|k: int|
                    0 <= k < chosen.len() ==> {
                        let info = #[trigger] chosen[k];
                        spec_player_setup(
                            g.players@[k],
                            info.template,
                            locs[info.start_location_index as int].0,
                            locs[info.start_location_index as int].1,
                            locs[info.start_location_index as int].2,
                        )
                    }
                &&& forall|k: int|
                    0 <= k < g.players@.len() ==> #[trigger] g.players@[k].wf(
                        g.board.fields@.len() as int,
                    )
                &&& g.players@.len() >= 1 ==> g.wf()
            },
    {
        let board = match Board::from_template(board_template) {
            Some(b) => b,
            None => {
                return None;
            }
        };
        let ghost n = board.fields@.len() as int;
        let ghost locs = spec_starting_locations(board, board_template.starting_locations@);

        let mut starting_locations: Vec<(usize, usize, usize)> = Vec::new();
        let mut i: usize = 0;
        while i < board_template.starting_locations.len()
            invariant
                0 <= i <= board_template.starting_locations@.len(),
                locs == spec_starting_locations(board, board_template.starting_locations@),
                starting_locations@.len() == spec_starting_locations(
                    board,
                    board_template.starting_locations@.take(i as int),
                ).len(),
                forall|k: int|
                    0 <= k < starting_locations@.len() ==> {
                        let entry = spec_starting_locations(
                            board,
                            board_template.starting_locations@.take(i as int),
                        )[k];
                        &&& ((#[trigger] starting_locations@[k]).0 as int) == entry.0
                        &&& (starting_locations@[k].1 as int) == entry.1
                        &&& (starting_locations@[k].2 as int) == entry.2
                    },
                forall|k: int|
                    0 <= k < starting_locations@.len() ==> {
                        &&& (#[trigger] starting_locations@[k]).0 < board.fields@.len()
                        &&& starting_locations@[k].1 < board.fields@.len()
                        &&& starting_locations@[k].2 < board.fields@.len()
                    },
            decreases board_template.starting_locations@.len() - i,
        {
            proof {
                assert(board_template.starting_locations@.take(i + 1).drop_last()
                    =~= board_template.starting_locations@.take(i as int));
                assert(board_template.starting_locations@.take(i + 1).last()
                    == board_template.starting_locations@[i as int]);
            }
            let loc = board_template.starting_locations[i];
            let home = board.get_field(&loc.position);
            let start1 = board.get_field(&loc.start1);
            let start2 = board.get_field(&loc.start2);

            match (home, start1, start2) {
                (Some(h), Some(s1), Some(s2)) => {
                    starting_locations.push((h, s1, s2));
                }
                _ => {}
            }
            i = i + 1;
        }
        proof {
            assert(board_template.starting_locations@.take(
                board_template.starting_locations@.len() as int,
            ) =~= board_template.starting_locations@);
        }

        let mut players: Vec<PlayerState> = Vec::new();
        let mut j: usize = 0;
        while j < player_templates.len()
            invariant
                0 <= j <= player_templates@.len(),
                n == board.fields@.len() as int,
                locs == spec_starting_locations(board, board_template.starting_locations@),
                starting_locations@.len() == locs.len(),
                forall|k: int|
                    0 <= k < starting_locations@.len() ==> {
                        let entry = locs[k];
                        &&& ((#[trigger] starting_locations@[k]).0 as int) == entry.0
                        &&& (starting_locations@[k].1 as int) == entry.1
                        &&& (starting_locations@[k].2 as int) == entry.2
                    },
                forall|k: int|
                    0 <= k < starting_locations@.len() ==> {
                        &&& (#[trigger] starting_locations@[k]).0 < board.fields@.len()
                        &&& starting_locations@[k].1 < board.fields@.len()
                        &&& starting_locations@[k].2 < board.fields@.len()
                    },
                forall|k: int|
                    0 <= k < player_templates@.len() ==> {
                        let t = #[trigger] player_templates@[k].template;
                        &&& t.faction.starting_power + t.player.bonus_starting_power <= u8::MAX
                        &&& t.player_mat.starting_popularity + t.player.bonus_starting_popularity
                            <= u8::MAX
                        &&& t.player_mat.starting_coins + t.player.bonus_starting_coins
                            <= u32::MAX
                    },
                players@.len() == spec_selected_infos(
                    player_templates@.take(j as int),
                    locs.len() as int,
                ).len(),
                forall|k: int|
                    0 <= k < spec_selected_infos(
                        player_templates@.take(j as int),
                        locs.len() as int,
                    ).len() ==> {
                        let info = #[trigger] spec_selected_infos(
                            player_templates@.take(j as int),
                            locs.len() as int,
                        )[k];
                        spec_player_setup(
                            players@[k],
                            info.template,
                            locs[info.start_location_index as int].0,
                            locs[info.start_location_index as int].1,
                            locs[info.start_location_index as int].2,
                        )
                    },
                forall|k: int| 0 <= k < players@.len() ==> #[trigger] players@[k].wf(n),
            decreases player_templates@.len() - j,
        {
            proof {
                assert(player_templates@.take(j + 1).drop_last() =~= player_templates@.take(
                    j as int,
                ));
                assert(player_templates@.take(j + 1).last() == player_templates@[j as int]);
            }
            let info = &player_templates[j];
            if info.start_location_index < starting_locations.len() {
                let (h, s1, s2) = starting_locations[info.start_location_index];
                let new_player = PlayerState::new(&info.template, h, s1, s2);
                proof {
                    assert(forall|w: crate::game::production::Worker|
                        0 <= #[trigger] crate::game::production::spec_worker_index(w) < 8);
                    assert(forall|m: crate::game::mechs::Mech|
                        0 <= #[trigger] crate::game::mechs::spec_mech_index(m) < 4);
                    assert(new_player.wf(n));
                    assert(spec_player_setup(
                        new_player,
                        info.template,
                        locs[info.start_location_index as int].0,
                        locs[info.start_location_index as int].1,
                        locs[info.start_location_index as int].2,
                    ));
                }
                players.push(new_player);
            }
            j = j + 1;
        }
        proof {
            assert(player_templates@.take(player_templates@.len() as int) =~= player_templates@);
            lemma_selected_len(player_templates@, locs.len() as int);
        }

        Some(Game { board, players, turn: 0 })
    }

    /// Which round the game is in: full cycles over all players.
    pub fn get_round(&self) -> (r: u32)
        requires
            self.wf(),
        ensures
            r == (self.turn as int) / (self.players@.len() as int),
    {
        self.turn / (self.players.len() as u32)
    }

    /// Index of the player whose turn it is.
    pub fn get_active_player(&self) -> (r: usize)
        requires
            self.wf(),
        ensures
            r == self.spec_active_index(),
            r < self.players@.len(),
    {
        (self.turn as usize) % self.players.len()
    }

    /// The first player with a unit at the field, scanning character,
    /// mechs and workers per player; buildings count only when no unit
    /// of any player stands there.
    pub open spec fn spec_get_player_control(self, field: usize) -> Option<int> {
        match spec_first_where_unit(self.players@, field) {
            Some(k) => Some(k),
            None => spec_first_where_building(self.players@, field),
        }
    }

    /// Which player controls the field, if any: a unit grants control
    /// first; failing that, a building does.
    pub fn get_player_control(&self, field: usize) -> (r: Option<usize>)
        requires
            self.wf(),
        ensures
            match r {
                Some(p) => {
                    &&& p < self.players@.len()
                    &&& self.spec_get_player_control(field) == Some(p as int)
                },
                None => self.spec_get_player_control(field) is None,
            },
    {
        proof {
            lemma_first_where_unit(self.players@, field);
            lemma_first_where_building(self.players@, field);
        }
        let mut k: usize = 0;
        while k < self.players.len()
            invariant
                self.wf(),
                0 <= k <= self.players@.len(),
                forall|m: int|
                    0 <= m < k ==> !spec_controls_unit(#[trigger] self.players@[m], field),
            decreases self.players@.len() - k,
        {
            proof {
                assert(self.players@[k as int].wf(self.board.fields@.len() as int));
            }
            if player_has_unit_at(&self.players[k], field) {
                proof {
                    lemma_first_where_unit(self.players@, field);
                }
                return Some(k);
            }
            k = k + 1;
        }

        let mut k2: usize = 0;
        while k2 < self.players.len()
            invariant
                self.wf(),
                forall|m: int|
                    0 <= m < self.players@.len() ==> !spec_controls_unit(
                        #[trigger] self.players@[m],
                        field,
                    ),
                0 <= k2 <= self.players@.len(),
                forall|m: int|
                    0 <= m < k2 ==> !spec_controls_building(#[trigger] self.players@[m], field),
            decreases self.players@.len() - k2,
        {
            if player_has_building_at(&self.players[k2], field) {
                proof {
                    lemma_first_where_unit(self.players@, field);
                    lemma_first_where_building(self.players@, field);
                }
                return Some(k2);
            }
            k2 = k2 + 1;
        }
        proof {
            lemma_first_where_unit(self.players@, field);
            lemma_first_where_building(self.players@, field);
        }
        None
    }
}

/// Does one of the player's units (character, worker, mech) stand at the
/// field?
pub open spec fn spec_controls_unit(p: PlayerState, field: usize) -> bool {
    ||| p.character.location == field
    ||| exists|i: int|
        0 <= i < p.mechs.mechs@.len() && #[trigger] p.mechs.mechs@[i] == Some(field)
    ||| exists|i: int|
        0 <= i < p.production.workers@.len() && #[trigger] p.production.workers@[i] == Some(field)
}

/// Does one of the player's buildings stand at the field?
pub open spec fn spec_controls_building(p: PlayerState, field: usize) -> bool {
    ||| p.buildings.armory == Some(field)
    ||| p.buildings.mill == Some(field)
    ||| p.buildings.monument == Some(field)
    ||| p.buildings.tunnel == Some(field)
}

fn player_has_unit_at(p: &PlayerState, field: usize) -> (r: bool)
    requires
        p.production.wf(),
        p.mechs.wf(),
    ensures
        r == spec_controls_unit(*p, field),
{
    if p.character.location == field {
        return true;
    }
    let mut i: usize = 0;
    while i < p.mechs.mechs.len()
        invariant
            0 <= i <= p.mechs.mechs@.len(),
            forall|m: int| 0 <= m < i ==> #[trigger] p.mechs.mechs@[m] != Some(field),
        decreases p.mechs.mechs@.len() - i,
    {
        match p.mechs.mechs[i] {
            Some(f) => {
                if f == field {
                    return true;
                }
            }
            None => {}
        }
        i = i + 1;
    }
    let mut j: usize = 0;
    while j < p.production.workers.len()
        invariant
            0 <= j <= p.production.workers@.len(),
            forall|m: int| 0 <= m < j ==> #[trigger] p.production.workers@[m] != Some(field),
        decreases p.production.workers@.len() - j,
    {
        match p.production.workers[j] {
            Some(f) => {
                if f == field {
                    return true;
                }
            }
            None => {}
        }
        j = j + 1;
    }
    false
}

fn player_has_building_at(p: &PlayerState, field: usize) -> (r: bool)
    ensures
        r == spec_controls_building(*p, field),
{
    let c1 = match p.buildings.get(Building::Armory) {
        Some(f) => f == field,
        None => false,
    };
    let c2 = match p.buildings.get(Building::Mill) {
        Some(f) => f == field,
        None => false,
    };
    let c3 = match p.buildings.get(Building::Monument) {
        Some(f) => f == field,
        None => false,
    };
    let c4 = match p.buildings.get(Building::Tunnel) {
        Some(f) => f == field,
        None => false,
    };
    c1 || c2 || c3 || c4
}

/// Index of the first player controlling the field with a unit.
pub open spec fn spec_first_where_unit(players: Seq<PlayerState>, field: usize) -> Option<int>
    decreases players.len(),
{
    if players.len() == 0 {
        None
    } else if spec_controls_unit(players[0], field) {
        Some(0int)
    } else {
        match spec_first_where_unit(players.drop_first(), field) {
            Some(i) => Some(i + 1),
            None => None,
        }
    }
}

/// Index of the first player controlling the field with a building.
pub open spec fn spec_first_where_building(players: Seq<PlayerState>, field: usize) -> Option<int>
    decreases players.len(),
{
    if players.len() == 0 {
        None
    } else if spec_controls_building(players[0], field) {
        Some(0int)
    } else {
        match spec_first_where_building(players.drop_first(), field) {
            Some(i) => Some(i + 1),
            None => None,
        }
    }
}

pub proof fn lemma_first_where_unit(players: Seq<PlayerState>, field: usize)
    ensures
        match spec_first_where_unit(players, field) {
            Some(i) => 0 <= i < players.len() && spec_controls_unit(players[i], field) && (forall|
                k: int,
            | 0 <= k < i ==> !spec_controls_unit(players[k], field)),
            None => forall|k: int| 0 <= k < players.len() ==> !spec_controls_unit(players[k], field),
        },
    decreases players.len(),
{
    if players.len() > 0 && !spec_controls_unit(players[0], field) {
        let rest = players.drop_first();
        lemma_first_where_unit(rest, field);
        assert(forall|k: int| 1 <= k < players.len() ==> players[k] == rest[k - 1]);
    }
}

pub proof fn lemma_first_where_building(players: Seq<PlayerState>, field: usize)
    ensures
        match spec_first_where_building(players, field) {
            Some(i) => 0 <= i < players.len() && spec_controls_building(players[i], field) && (
            forall|k: int| 0 <= k < i ==> !spec_controls_building(players[k], field)),
            None => forall|k: int|
                0 <= k < players.len() ==> !spec_controls_building(players[k], field),
        },
    decreases players.len(),
{
    if players.len() > 0 && !spec_controls_building(players[0], field) {
        let rest = players.drop_first();
        lemma_first_where_building(rest, field);
        assert(forall|k: int| 1 <= k < players.len() ==> players[k] == rest[k - 1]);
    }
}

} // verus!
