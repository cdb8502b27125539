use vstd::prelude::*;

use crate::game::board::{Board, ResourceField};
use crate::game::buildings::BuildingsState;
use crate::game::character::CharacterEntity;
use crate::game::mechs::MechsState;
use crate::game::military::MilitaryState;
use crate::game::popularity::PopularityState;
use crate::game::production::ProductionState;
use crate::game::recruits::RecruitsState;
use crate::game::upgrades::UpgradesState;
use crate::template::{Faction, Player, PlayerMat, PrimaryAction, SecondaryAction};
use crate::turn::mask::UnitPosition;

verus! {

/// Per-player aggregate: the fixed primary-to-secondary linkage, all
/// progress trackers, unit positions, and loose counters.
#[derive(Debug, Clone)]
pub struct PlayerState {
    /// Secondary linked to the Move and Tax primary actions.
    pub move_secondary: SecondaryAction,
    /// Secondary linked to the Trade and Promote primary actions.
    pub trade_secondary: SecondaryAction,
    /// Secondary linked to the Produce primary action.
    pub produce_secondary: SecondaryAction,
    /// Secondary linked to the Bolster and Enforce primary actions.
    pub bolster_secondary: SecondaryAction,

    pub upgrades: UpgradesState,
    pub mechs: MechsState,
    pub buildings: BuildingsState,
    pub recruits: RecruitsState,
    pub military: MilitaryState,
    pub popularity: PopularityState,
    pub production: ProductionState,
    pub character: CharacterEntity,

    pub coins: u32,
    pub cards: u8,
    pub combat_wins: u8,
}

/// The setup bundle one player is created from.
#[derive(Debug, Clone)]
pub struct PlayerTemplate {
    pub player: Player,
    pub faction: Faction,
    pub player_mat: PlayerMat,
}

/// The distinct fields a player's units and buildings stand on.
pub type Territory = Vec<usize>;

/// `1` for a set flag, `0` otherwise.
pub open spec fn b2i(b: bool) -> int {
    if b {
        1
    } else {
        0
    }
}

/// All fields a player occupies, as an ordered candidate list: the
/// character first, then worker slots, mech slots, and buildings.
pub open spec fn spec_candidates(p: PlayerState) -> Seq<Option<usize>> {
    seq![Some(p.character.location)] + p.production.workers@ + p.mechs.mechs@ + seq![
        p.buildings.armory,
        p.buildings.mill,
        p.buildings.tunnel,
        p.buildings.monument,
    ]
}

/// First occurrences of the occupied fields, in candidate order.
pub open spec fn spec_dedup(s: Seq<Option<usize>>) -> Seq<usize>
    decreases s.len(),
{
    if s.len() == 0 {
        Seq::empty()
    } else {
        let prefix = spec_dedup(s.drop_last());
        match s.last() {
            Some(f) => if prefix.contains(f) {
                prefix
            } else {
                prefix.push(f)
            },
            None => prefix,
        }
    }
}

impl PlayerState {
    /// Shape invariant against a board of `n` fields: every unit and
    /// building reference stays inside the arena.
    pub open spec fn wf(self, n: int) -> bool {
        &&& self.character.location < n
        &&& self.production.wf()
        &&& forall|i: int|
            0 <= i < self.production.workers@.len() ==> ((#[trigger] self.production.workers@[i])
                matches Some(f) ==> f < n)
        &&& self.mechs.wf()
        &&& forall|i: int|
            0 <= i < self.mechs.mechs@.len() ==> ((#[trigger] self.mechs.mechs@[i]) matches Some(
                f,
            ) ==> f < n)
        &&& (self.buildings.armory matches Some(f) ==> f < n)
        &&& (self.buildings.mill matches Some(f) ==> f < n)
        &&& (self.buildings.tunnel matches Some(f) ==> f < n)
        &&& (self.buildings.monument matches Some(f) ==> f < n)
    }

    /// Number of achieved stars: the seven one-way flags plus up to two
    /// combat wins.
    pub open spec fn spec_stars(self) -> int {
        b2i(self.upgrades.star) + b2i(self.mechs.star) + b2i(self.buildings.star) + b2i(
            self.recruits.star,
        ) + b2i(self.production.star) + (if self.combat_wins >= 2 {
            2int
        } else {
            self.combat_wins as int
        }) + b2i(self.popularity.star) + b2i(self.military.star)
    }

    pub open spec fn spec_get_secondary(self, primary: PrimaryAction) -> SecondaryAction {
        match primary {
            PrimaryAction::Move => self.move_secondary,
            PrimaryAction::Tax => self.move_secondary,
            PrimaryAction::Trade => self.trade_secondary,
            PrimaryAction::Promote => self.trade_secondary,
            PrimaryAction::Bolster => self.bolster_secondary,
            PrimaryAction::Enforce => self.bolster_secondary,
            PrimaryAction::Produce => self.produce_secondary,
        }
    }

    /// The primary granted back for a linked secondary, scanning the
    /// four links in a fixed order.
    pub open spec fn spec_get_primary(self, secondary: SecondaryAction) -> PrimaryAction {
        if secondary == self.move_secondary {
            PrimaryAction::Tax
        } else if secondary == self.trade_secondary {
            PrimaryAction::Promote
        } else if secondary == self.produce_secondary {
            PrimaryAction::Produce
        } else {
            PrimaryAction::Bolster
        }
    }

    /// Tiered affordability gate for producing: the more workers are
    /// deployed, the more kinds of payment must be available.
    pub open spec fn spec_can_produce(self) -> bool {
        &&& !(self.production.deployed_workers >= 8 && self.coins <= 0)
        &&& !(self.production.deployed_workers >= 6 && self.popularity.popularity <= 0)
        &&& !(self.production.deployed_workers >= 4 && self.military.power <= 0)
    }

    /// The board field the named unit stands on, `None` while it is
    /// undeployed.
    pub open spec fn spec_get_unit_field(self, unit: UnitPosition) -> Option<usize> {
        match unit {
            UnitPosition::Character => Some(self.character.location),
            UnitPosition::Worker(w) => self.production.spec_get(w),
            UnitPosition::Mech(m) => self.mechs.spec_get(m),
            UnitPosition::Building(b) => self.buildings.spec_get(b),
        }
    }

    /// Sets one player up: workers on the two starting fields, the
    /// character at home, everything else fresh from the templates.
    pub fn new(template: &PlayerTemplate, home: usize, first: usize, second: usize) -> (r:
        PlayerState)
        requires
            template.faction.starting_power + template.player.bonus_starting_power <= u8::MAX,
            template.player_mat.starting_popularity + template.player.bonus_starting_popularity
                <= u8::MAX,
            template.player_mat.starting_coins + template.player.bonus_starting_coins <= u32::MAX,
        ensures
            r.move_secondary == template.player_mat.move_secondary,
            r.trade_secondary == template.player_mat.trade_secondary,
            r.produce_secondary == template.player_mat.produce_secondary,
            r.bolster_secondary == template.player_mat.bolster_secondary,
            r.upgrades == UpgradesState::spec_new(template.player_mat),
            r.mechs.wf(),
            r.mechs.mechs@ == Seq::new(4, |i: int| None::<usize>),
            !r.mechs.star,
            r.buildings == BuildingsState::spec_new(),
            r.recruits == RecruitsState::spec_new(),
            r.military.power == template.faction.starting_power
                + template.player.bonus_starting_power,
            !r.military.star,
            r.popularity.popularity == template.player_mat.starting_popularity
                + template.player.bonus_starting_popularity,
            !r.popularity.star,
            r.production.wf(),
            r.production.deployed_workers == 2,
            r.production.workers@ == seq![
                Some(first),
                Some(second),
                None,
                None,
                None,
                None,
                None,
                None,
            ],
            !r.production.star,
            r.character.location == home,
            r.coins == template.player_mat.starting_coins + template.player.bonus_starting_coins,
            r.cards == template.faction.starting_cards,
            r.combat_wins == 0,
    {
        let mut production = ProductionState::new();
        production.deploy(first);
        production.deploy(second);
        proof {
            assert(production.workers@ =~= seq![
                Some(first),
                Some(second),
                None,
                None,
                None,
                None,
                None,
                None,
            ]);
        }

        PlayerState {
            move_secondary: template.player_mat.move_secondary,
            trade_secondary: template.player_mat.trade_secondary,
            produce_secondary: template.player_mat.produce_secondary,
            bolster_secondary: template.player_mat.bolster_secondary,

            upgrades: UpgradesState::new(&template.player_mat),
            mechs: MechsState::new(),
            buildings: BuildingsState::new(),
            recruits: RecruitsState::new(),
            military: MilitaryState::new(
                template.faction.starting_power + template.player.bonus_starting_power,
            ),
            popularity: PopularityState::new(
                template.player_mat.starting_popularity
                    + template.player.bonus_starting_popularity,
            ),
            production,
            character: CharacterEntity { location: home },

            coins: template.player_mat.starting_coins + template.player.bonus_starting_coins,
            cards: template.faction.starting_cards,
            combat_wins: 0,
        }
    }

    pub fn stars(&self) -> (r: u8)
        ensures
            r == self.spec_stars(),
    {
        let mut stars: u8 = 0;
        if self.upgrades.star {
            stars += 1
        }
        if self.mechs.star {
            stars += 1
        }
        if self.buildings.star {
            stars += 1
        }
        if self.recruits.star {
            stars += 1
        }
        if self.production.star {
            stars += 1
        }
        stars += if self.combat_wins < 2 {
            self.combat_wins
        } else {
            2
        };
        if self.popularity.star {
            stars += 1
        }
        if self.military.star {
            stars += 1
        }
        stars
    }

    /// Six stars win the game.
    pub fn has_won(&self) -> (r: bool)
        ensures
            r == (self.spec_stars() >= 6),
    {
        self.stars() >= 6
    }

    /// The distinct fields this player's units and buildings occupy, in
    /// first-occupied order.
    pub fn controlled_territory(&self) -> (r: Territory)
        requires
            self.production.wf(),
            self.mechs.wf(),
        ensures
            r@ == spec_dedup(spec_candidates(*self)),
    {
        let ghost cands = spec_candidates(*self);
        let mut candidates: Vec<Option<usize>> = Vec::new();
        candidates.push(Some(self.character.location));
        let mut i: usize = 0;
        while i < self.production.workers.len()
            invariant
                0 <= i <= self.production.workers@.len(),
                candidates@ == seq![Some(self.character.location)]
                    + self.production.workers@.take(i as int),
            decreases self.production.workers@.len() - i,
        {
            candidates.push(self.production.workers[i]);
            proof {
                assert(self.production.workers@.take(i as int).push(
                    self.production.workers@[i as int],
                ) =~= self.production.workers@.take(i + 1));
                assert((seq![Some(self.character.location)] + self.production.workers@.take(
                    i as int,
                )).push(self.production.workers@[i as int]) =~= seq![
                    Some(self.character.location),
                ] + self.production.workers@.take(i + 1));
            }
            i = i + 1;
        }
        proof {
            assert(self.production.workers@.take(self.production.workers@.len() as int)
                =~= self.production.workers@);
        }
        let ghost head = seq![Some(self.character.location)] + self.production.workers@;
        let mut j: usize = 0;
        while j < self.mechs.mechs.len()
            invariant
                0 <= j <= self.mechs.mechs@.len(),
                head == seq![Some(self.character.location)] + self.production.workers@,
                candidates@ == head + self.mechs.mechs@.take(j as int),
            decreases self.mechs.mechs@.len() - j,
        {
            candidates.push(self.mechs.mechs[j]);
            proof {
                assert((head + self.mechs.mechs@.take(j as int)).push(self.mechs.mechs@[j as int])
                    =~= head + self.mechs.mechs@.take(j + 1));
            }
            j = j + 1;
        }
        proof {
            assert(self.mechs.mechs@.take(self.mechs.mechs@.len() as int) =~= self.mechs.mechs@);
        }
        candidates.push(self.buildings.armory);
        candidates.push(self.buildings.mill);
        candidates.push(self.buildings.tunnel);
        candidates.push(self.buildings.monument);
        proof {
            assert(candidates@ =~= cands);
        }

        let mut territory: Vec<usize> = Vec::new();
        let mut k: usize = 0;
        while k < candidates.len()
            invariant
                0 <= k <= candidates@.len(),
                candidates@ == cands,
                territory@ == spec_dedup(cands.take(k as int)),
            decreases candidates@.len() - k,
        {
            proof {
                assert(cands.take(k + 1).drop_last() =~= cands.take(k as int));
            }
            match candidates[k] {
                Some(tile) => {
                    if !contains_field(&territory, tile) {
                        territory.push(tile);
                    }
                }
                None => {}
            }
            k = k + 1;
        }
        proof {
            assert(cands.take(cands.len() as int) =~= cands);
        }
        territory
    }

    /// Size of the given territory, or of the freshly computed one.
    pub fn territory_size(&self, territory: Option<&Territory>) -> (r: u32)
        requires
            self.production.wf(),
            self.mechs.wf(),
            territory matches Some(t) ==> t@.len() <= u32::MAX,
        ensures
            r == match territory {
                Some(t) => t@.len() as int,
                None => spec_dedup(spec_candidates(*self)).len() as int,
            },
    {
        match territory {
            Some(t) => t.len() as u32,
            None => {
                let t = self.controlled_territory();
                proof {
                    lemma_dedup_len(spec_candidates(*self));
                }
                t.len() as u32
            }
        }
    }

    /// Sums the inventories over the territory's fields on the board.
    pub fn recources(&self, board: &Board, territory: Option<&Territory>) -> (r: ResourceField)
        requires
            self.production.wf(),
            self.mechs.wf(),
            match territory {
                Some(t) => forall|i: int| 0 <= i < t@.len() ==> t@[i] < board.fields@.len(),
                None => self.wf(board.fields@.len() as int),
            },
        ensures
            r == spec_sum_resources(
                board.fields@,
                match territory {
                    Some(t) => t@,
                    None => spec_dedup(spec_candidates(*self)),
                },
            ),
    {
        let terr: &Territory = match territory {
            Some(t) => t,
            None => &(self.controlled_territory()),
        };
        proof {
            if territory is None {
                lemma_dedup_in_bounds(spec_candidates(*self), board.fields@.len() as int);
            }
        }
        let mut acc = ResourceField::empty();
        let mut i: usize = 0;
        while i < terr.len()
            invariant
                0 <= i <= terr@.len(),
                forall|k: int| 0 <= k < terr@.len() ==> terr@[k] < board.fields@.len(),
                acc == spec_sum_resources(board.fields@, terr@.take(i as int)),
            decreases terr@.len() - i,
        {
            proof {
                assert(terr@.take(i + 1).drop_last() =~= terr@.take(i as int));
            }
            acc = acc.add(board.fields[terr[i]].resources);
            i = i + 1;
        }
        proof {
            assert(terr@.take(terr@.len() as int) =~= terr@);
        }
        acc
    }

    /// End-game score: held coins plus the popularity-tiered bonuses for
    /// stars, territory and resource pairs, each sum saturating.
    pub fn total_coins(&self, board: &Board) -> (r: u32)
        requires
            self.wf(board.fields@.len() as int),
        ensures
            ({
                let territory = spec_dedup(spec_candidates(*self));
                let resources = spec_sum_resources(board.fields@, territory);
                r == crate::game::board::sat_add_u32(
                    crate::game::board::sat_add_u32(
                        crate::game::board::sat_add_u32(
                            self.coins as int,
                            self.spec_stars() * self.popularity.spec_tier(3, 4, 5),
                        ),
                        crate::game::board::sat_mul_u32(
                            territory.len() as int,
                            self.popularity.spec_tier(2, 3, 4) as int,
                        ),
                    ),
                    crate::game::board::sat_mul_u32(
                        resources.spec_total() / 2,
                        self.popularity.spec_tier(1, 2, 3) as int,
                    ),
                )
            }),
    {
        let territory = self.controlled_territory();
        proof {
            lemma_dedup_len(spec_candidates(*self));
            assert forall|i: int|
                0 <= i < spec_candidates(*self).len() implies ((#[trigger] spec_candidates(
                *self,
            )[i]) matches Some(f) ==> f < board.fields@.len()) by {
                let cands = spec_candidates(*self);
                let nw = self.production.workers@.len() as int;
                let nm = self.mechs.mechs@.len() as int;
                if 1 <= i < 1 + nw {
                    assert(cands[i] == self.production.workers@[i - 1]);
                } else if 1 + nw <= i < 1 + nw + nm {
                    assert(cands[i] == self.mechs.mechs@[i - 1 - nw]);
                }
            }
            lemma_dedup_in_bounds(spec_candidates(*self), board.fields@.len() as int);
        }
        let fields_amount = self.territory_size(Some(&territory));
        let resources = self.recources(board, Some(&territory));

        proof {
            assert(self.spec_stars() <= 9);
            let a = self.spec_stars();
            let b = self.popularity.spec_tier(3, 4, 5) as int;
            assert(a * b <= 45) by (nonlinear_arith)
                requires
                    0 <= a <= 9,
                    0 <= b <= 5,
            ;
        }
        let star_bonus = (self.stars() as u32) * (self.star_mult() as u32);
        let field_bonus = sat_mul(fields_amount, self.fields_mult() as u32);
        let resource_bonus = sat_mul(resources.total() / 2, self.res_mult() as u32);
        self.coins.saturating_add(star_bonus).saturating_add(field_bonus).saturating_add(
            resource_bonus,
        )
    }

    fn star_mult(&self) -> (r: u8)
        ensures
            r == self.popularity.spec_tier(3, 4, 5),
    {
        self.popularity.star_multiplier()
    }

    fn fields_mult(&self) -> (r: u8)
        ensures
            r == self.popularity.spec_tier(2, 3, 4),
    {
        self.popularity.fields_multiplier()
    }

    fn res_mult(&self) -> (r: u8)
        ensures
            r == self.popularity.spec_tier(1, 2, 3),
    {
        self.popularity.resources_multiplier()
    }

    /// The primary a linked secondary is reached through. The secondary
    /// must be one of the player's four links.
    pub fn get_primary(&self, secondary: SecondaryAction) -> (r: PrimaryAction)
        requires
            secondary == self.move_secondary || secondary == self.trade_secondary || secondary
                == self.produce_secondary || secondary == self.bolster_secondary,
        ensures
            r == self.spec_get_primary(secondary),
    {
        if secondary == self.move_secondary {
            PrimaryAction::Tax
        } else if secondary == self.trade_secondary {
            PrimaryAction::Promote
        } else if secondary == self.produce_secondary {
            PrimaryAction::Produce
        } else {
            PrimaryAction::Bolster
        }
    }

    /// The secondary the player mat links to a primary.
    pub fn get_secondary(&self, primary: PrimaryAction) -> (r: SecondaryAction)
        ensures
            r == self.spec_get_secondary(primary),
    {
        match primary {
            PrimaryAction::Move => self.move_secondary,
            PrimaryAction::Tax => self.move_secondary,
            PrimaryAction::Trade => self.trade_secondary,
            PrimaryAction::Promote => self.trade_secondary,
            PrimaryAction::Bolster => self.bolster_secondary,
            PrimaryAction::Enforce => self.bolster_secondary,
            PrimaryAction::Produce => self.produce_secondary,
        }
    }

    /// Tiered affordability gate for producing.
    pub fn can_produce(&self) -> (r: bool)
        ensures
            r == self.spec_can_produce(),
    {
        let total = self.production.deployed_workers;
        if total >= 8 && self.coins == 0 {
            return false;
        }
        if total >= 6 && self.popularity.popularity == 0 {
            return false;
        }
        if total >= 4 && self.military.power == 0 {
            return false;
        }
        true
    }

    /// The board field the named unit stands on.
    pub fn get_unit_field(&self, unit: &UnitPosition) -> (r: Option<usize>)
        requires
            self.production.wf(),
            self.mechs.wf(),
        ensures
            r == self.spec_get_unit_field(*unit),
    {
        match unit {
            UnitPosition::Character => Some(self.character.location),
            UnitPosition::Worker(w) => self.production.get(*w),
            UnitPosition::Mech(m) => self.mechs.get(*m),
            UnitPosition::Building(b) => self.buildings.get(*b),
        }
    }
}

/// Sum of the field inventories the index list names, in list order,
/// each component saturating.
pub open spec fn spec_sum_resources(fields: Seq<crate::game::board::Field>, terr: Seq<usize>)
    -> ResourceField
    decreases terr.len(),
{
    if terr.len() == 0 {
        ResourceField::spec_empty()
    } else {
        spec_sum_resources(fields, terr.drop_last()).spec_add(fields[terr.last() as int].resources)
    }
}

/// Deduplication never lengthens a list.
pub proof fn lemma_dedup_len(s: Seq<Option<usize>>)
    ensures
        spec_dedup(s).len() <= s.len(),
    decreases s.len(),
{
    if s.len() > 0 {
        lemma_dedup_len(s.drop_last());
    }
}

/// Every deduplicated entry comes from a `Some` entry of the source.
pub proof fn lemma_dedup_in_bounds(s: Seq<Option<usize>>, n: int)
    requires
        forall|i: int| 0 <= i < s.len() ==> ((#[trigger] s[i]) matches Some(f) ==> f < n),
    ensures
        forall|k: int| 0 <= k < spec_dedup(s).len() ==> spec_dedup(s)[k] < n,
    decreases s.len(),
{
    if s.len() > 0 {
        lemma_dedup_in_bounds(s.drop_last(), n);
        let prefix = spec_dedup(s.drop_last());
        match s.last() {
            Some(f) => {
                if !prefix.contains(f) {
                    assert(spec_dedup(s) == prefix.push(f));
                }
            }
            None => {}
        }
    }
}

/// `u32` multiplication saturating at the type's cap.
fn sat_mul(a: u32, b: u32) -> (r: u32)
    ensures
        r as int == crate::game::board::sat_mul_u32(a as int, b as int),
{
    proof {
        assert((a as int) * (b as int) < 0x10000000000000000int) by (nonlinear_arith)
            requires
                a <= 0xffffffffu32,
                b <= 0xffffffffu32,
        ;
    }
    let prod = (a as u64) * (b as u64);
    if prod > (u32::MAX as u64) {
        u32::MAX
    } else {
        prod as u32
    }
}

/// Does the territory already list the field?
fn contains_field(territory: &Vec<usize>, field: usize) -> (r: bool)
    ensures
        r == territory@.contains(field),
{
    let mut i: usize = 0;
    while i < territory.len()
        invariant
            0 <= i <= territory@.len(),
            forall|k: int| 0 <= k < i ==> territory@[k] != field,
        decreases territory@.len() - i,
    {
        if territory[i] == field {
            return true;
        }
        i = i + 1;
    }
    false
}

} // verus!
