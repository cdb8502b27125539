use vstd::prelude::*;

pub mod buildings;
pub mod mechs;
pub mod military;
pub mod popularity;
pub mod production;
pub mod resources;
pub mod upgrades;

use crate::campaign::{Faction, Player, PlayerMat};
use crate::game::recruits::RecruitsState;
use crate::template::{PrimaryAction, SecondaryAction};

use buildings::BuildingsState;
use mechs::MechsState;
use military::MilitaryState;
use popularity::PopularityState;
use production::ProductionState;
use resources::ResourcesState;
use upgrades::UpgradesState;

verus! {

/// `i32` addition saturating at the type's bounds.
pub open spec fn sat_add_i32(a: int, b: int) -> int {
    if a + b > i32::MAX {
        i32::MAX as int
    } else if a + b < i32::MIN {
        i32::MIN as int
    } else {
        a + b
    }
}

/// `i32` multiplication saturating at the type's bounds.
pub open spec fn sat_mul_i32(a: int, b: int) -> int {
    if a * b > i32::MAX {
        i32::MAX as int
    } else if a * b < i32::MIN {
        i32::MIN as int
    } else {
        a * b
    }
}

pub fn add_sat_i32(a: i32, b: i32) -> (r: i32)
    ensures
        r as int == sat_add_i32(a as int, b as int),
{
    match a.checked_add(b) {
        Some(sum) => sum,
        None => if b > 0 {
            i32::MAX
        } else {
            i32::MIN
        },
    }
}

pub fn mul_sat_i32(a: i32, b: i32) -> (r: i32)
    ensures
        r as int == sat_mul_i32(a as int, b as int),
{
    proof {
        let x = a as int;
        let y = b as int;
        assert(-0x4000000000000000 <= x * y <= 0x4000000000000000) by (nonlinear_arith)
            requires
                -0x80000000 <= x <= 0x7fffffff,
                -0x80000000 <= y <= 0x7fffffff,
        ;
    }
    let prod = (a as i64) * (b as i64);
    if prod > (i32::MAX as i64) {
        i32::MAX
    } else if prod < (i32::MIN as i64) {
        i32::MIN
    } else {
        prod as i32
    }
}

/// Per-player state of the tile-based game variant: progress trackers,
/// tile-count production, a resource ledger and loose counters.
#[derive(Debug, PartialEq, Eq, Structural, Clone, Copy)]
pub struct PlayerState {
    /// Secondary linked to the Move and Tax primary actions.
    pub move_secondary: SecondaryAction,
    /// Secondary linked to the Trade and Promote primary actions.
    pub trade_secondary: SecondaryAction,
    /// Secondary linked to the Produce primary action.
    pub produce_secondary: SecondaryAction,
    /// Secondary linked to the Bolster and Enforce primary actions.
    pub bolster_secondary: SecondaryAction,

    pub upgrades: UpgradesState,
    pub mechs: MechsState,
    pub buildings: BuildingsState,
    pub recruits: RecruitsState,
    pub military: MilitaryState,
    pub popularity: PopularityState,
    pub production: ProductionState,

    pub resources: ResourcesState,
    pub coins: i32,
    pub fields: i32,
    pub cards: i32,
    pub turns: i32,
}

impl PlayerState {
    /// Value invariant: every tracker within its range, every counter
    /// non-negative.
    pub open spec fn wf(self) -> bool {
        &&& self.upgrades.wf()
        &&& 0 <= self.military.power <= 16
        &&& 0 <= self.popularity.popularity <= 18
        &&& self.production.wf()
        &&& self.resources.wf()
        &&& self.coins >= 0
        &&& self.fields >= 0
        &&& self.cards >= 0
        &&& self.turns >= 0
    }

    /// Number of achieved stars among the six progress categories.
    pub open spec fn spec_stars(self) -> int {
        crate::game::player::b2i(self.upgrades.star) + crate::game::player::b2i(self.mechs.star)
            + crate::game::player::b2i(self.buildings.star) + crate::game::player::b2i(
            self.recruits.star,
        ) + crate::game::player::b2i(self.military.star) + crate::game::player::b2i(
            self.popularity.star,
        )
    }

    /// End-game score: held coins plus the popularity-tiered bonuses for
    /// stars, fields and resource pairs, the large sums saturating.
    pub open spec fn spec_total_coins(self) -> int {
        sat_add_i32(
            sat_add_i32(
                sat_add_i32(
                    self.coins as int,
                    self.spec_stars() * (self.popularity.spec_tier(3, 4, 5) as int),
                ),
                sat_mul_i32(self.fields as int, self.popularity.spec_tier(2, 3, 4) as int),
            ),
            sat_mul_i32(self.resources.spec_total() / 2, self.popularity.spec_tier(1, 2, 3) as int),
        )
    }

    pub open spec fn spec_get_secondary(self, primary: PrimaryAction) -> SecondaryAction {
        match primary {
            PrimaryAction::Move => self.move_secondary,
            PrimaryAction::Tax => self.move_secondary,
            PrimaryAction::Trade => self.trade_secondary,
            PrimaryAction::Promote => self.trade_secondary,
            PrimaryAction::Bolster => self.bolster_secondary,
            PrimaryAction::Enforce => self.bolster_secondary,
            PrimaryAction::Produce => self.produce_secondary,
        }
    }

    /// The primary granted back for a linked secondary, scanning the
    /// four links in a fixed order.
    pub open spec fn spec_get_primary(self, secondary: SecondaryAction) -> PrimaryAction {
        if secondary == self.move_secondary {
            PrimaryAction::Tax
        } else if secondary == self.trade_secondary {
            PrimaryAction::Promote
        } else if secondary == self.produce_secondary {
            PrimaryAction::Produce
        } else {
            PrimaryAction::Bolster
        }
    }

    /// Tiered affordability gate for producing: the more workers are
    /// committed, the more kinds of payment must be available.
    pub open spec fn spec_can_produce(self) -> bool {
        &&& !(self.production.spec_total() >= 8 && self.coins <= 0)
        &&& !(self.production.spec_total() >= 6 && self.popularity.popularity <= 0)
        &&& !(self.production.spec_total() >= 4 && self.military.power <= 0)
    }

    /// Sets one player up from the campaign templates.
    pub fn new(player: &Player, faction: &Faction, player_mat: &PlayerMat) -> (r: PlayerState)
        requires
            0 <= faction.starting_power + player.bonus_starting_power <= 16,
            0 <= player_mat.starting_popularity + player.bonus_starting_popularity <= 18,
            0 <= player_mat.starting_coins + player.bonus_starting_coins <= i32::MAX,
            0 <= faction.starting_cards,
            player_mat.upgrade_cost >= 0,
            player_mat.upgrade_evolutions >= 0,
            player_mat.upgrade_coins >= 0,
            player_mat.deploy_cost >= 0,
            player_mat.deploy_evolutions >= 0,
            player_mat.deploy_coins >= 0,
            player_mat.build_cost >= 0,
            player_mat.build_evolutions >= 0,
            player_mat.build_coins >= 0,
            player_mat.enlist_cost >= 0,
            player_mat.enlist_evolutions >= 0,
            player_mat.enlist_coins >= 0,
        ensures
            r.wf(),
            r.move_secondary == player_mat.move_secondary,
            r.trade_secondary == player_mat.trade_secondary,
            r.produce_secondary == player_mat.produce_secondary,
            r.bolster_secondary == player_mat.bolster_secondary,
            r.upgrades == UpgradesState::spec_new(*player_mat),
            r.mechs == MechsState::spec_new(),
            r.buildings == BuildingsState::spec_new(),
            r.recruits == RecruitsState::spec_new(),
            r.military.power == faction.starting_power + player.bonus_starting_power,
            !r.military.star,
            r.popularity.popularity == player_mat.starting_popularity
                + player.bonus_starting_popularity,
            !r.popularity.star,
            r.production == ProductionState::spec_new(
                seq![faction.first_starting_field, faction.second_starting_field],
            ),
            r.resources == ResourcesState::spec_new(),
            r.coins == player_mat.starting_coins + player.bonus_starting_coins,
            r.fields == 2,
            r.cards == faction.starting_cards,
            r.turns == 0,
    {
        PlayerState {
            move_secondary: player_mat.move_secondary,
            trade_secondary: player_mat.trade_secondary,
            produce_secondary: player_mat.produce_secondary,
            bolster_secondary: player_mat.bolster_secondary,

            upgrades: UpgradesState::new(player_mat),
            mechs: MechsState::new(),
            buildings: BuildingsState::new(),
            recruits: RecruitsState::new(),
            military: MilitaryState::new(faction.starting_power + player.bonus_starting_power),
            popularity: PopularityState::new(
                player_mat.starting_popularity + player.bonus_starting_popularity,
            ),
            production: {
                let mut starting: Vec<crate::turn::turnmask::Tile> = Vec::new();
                starting.push(faction.first_starting_field);
                starting.push(faction.second_starting_field);
                proof {
                    assert(starting@ =~= seq![
                        faction.first_starting_field,
                        faction.second_starting_field,
                    ]);
                }
                ProductionState::new(starting)
            },

            resources: ResourcesState::new(),
            coins: player_mat.starting_coins + player.bonus_starting_coins,
            fields: 2,
            cards: faction.starting_cards,
            turns: 0,
        }
    }

    pub fn stars(&self) -> (r: i32)
        ensures
            r == self.spec_stars(),
    {
        let mut stars: i32 = 0;
        if self.upgrades.star {
            stars += 1;
        }
        if self.mechs.star {
            stars += 1;
        }
        if self.buildings.star {
            stars += 1;
        }
        if self.recruits.star {
            stars += 1;
        }
        if self.military.star {
            stars += 1;
        }
        if self.popularity.star {
            stars += 1;
        }
        stars
    }

    /// Six stars win the game.
    pub fn has_won(&self) -> (r: bool)
        ensures
            r == (self.spec_stars() >= 6),
    {
        self.stars() >= 6
    }

    /// End-game score with integer division truncation on the resource
    /// pairs.
    pub fn total_coins(&self) -> (r: i32)
        requires
            self.wf(),
        ensures
            r == self.spec_total_coins(),
    {
        proof {
            let a = self.spec_stars();
            let b = self.popularity.spec_tier(3, 4, 5) as int;
            assert(0 <= a * b <= 30) by (nonlinear_arith)
                requires
                    0 <= a <= 6,
                    0 <= b <= 5,
            ;
        }
        let star_bonus = self.stars() * self.popularity.star_multiplier();

        let field_bonus = mul_sat_i32(self.fields, self.popularity.fields_multiplier());
        let resource_bonus = mul_sat_i32(
            self.resources.total() / 2,
            self.popularity.resources_multiplier(),
        );
        add_sat_i32(add_sat_i32(add_sat_i32(self.coins, star_bonus), field_bonus), resource_bonus)
    }

    /// The primary a linked secondary is reached through. The secondary
    /// must be one of the player's four links.
    pub fn get_primary(&self, secondary: SecondaryAction) -> (r: PrimaryAction)
        requires
            secondary == self.move_secondary || secondary == self.trade_secondary || secondary
                == self.produce_secondary || secondary == self.bolster_secondary,
        ensures
            r == self.spec_get_primary(secondary),
    {
        if secondary == self.move_secondary {
            PrimaryAction::Tax
        } else if secondary == self.trade_secondary {
            PrimaryAction::Promote
        } else if secondary == self.produce_secondary {
            PrimaryAction::Produce
        } else {
            PrimaryAction::Bolster
        }
    }

    /// The secondary the player mat links to a primary.
    pub fn get_secondary(&self, primary: PrimaryAction) -> (r: SecondaryAction)
        ensures
            r == self.spec_get_secondary(primary),
    {
        match primary {
            PrimaryAction::Move => self.move_secondary,
            PrimaryAction::Tax => self.move_secondary,
            PrimaryAction::Trade => self.trade_secondary,
            PrimaryAction::Promote => self.trade_secondary,
            PrimaryAction::Bolster => self.bolster_secondary,
            PrimaryAction::Enforce => self.bolster_secondary,
            PrimaryAction::Produce => self.produce_secondary,
        }
    }

    /// Every descriptor the enumerator yields from this state: each one
    /// sound, every catalogued primary-only descriptor included, and
    /// every catalogued primary paired with every linked, affordable,
    /// still-available secondary.
    pub fn get_actions(&self) -> (r: Vec<crate::turn::turnmask::TurnMask>)
        requires
            self.wf(),
        ensures
            forall|i: int|
                0 <= i < r@.len() ==> crate::game::turnpredictor::spec_mask_sound(
                    *self,
                    #[trigger] r@[i],
                ),
            forall|p: crate::turn::turnmask::Primary|
                crate::game::turnpredictor::spec_primary_enumerated(*self, p) ==> r@.contains(
                    crate::turn::turnmask::TurnMask::PrimaryOnly(p),
                ),
            forall|p: crate::turn::turnmask::Primary, sec: crate::turn::turnmask::Secondary|
                crate::game::turnpredictor::spec_primary_enumerated(*self, p)
                    && crate::game::turnpredictor::spec_secondary_enumerated(*self, p, sec)
                    ==> r@.contains(
                    crate::turn::turnmask::TurnMask::PrimaryAndSecondary(p, sec),
                ),
    {
        crate::game::turnpredictor::get_actions(self)
    }

    /// Tiered affordability gate for producing.
    pub fn can_produce(&self) -> (r: bool)
        requires
            self.production.wf(),
        ensures
            r == self.spec_can_produce(),
    {
        let total = self.production.total();
        if total >= 8 && self.coins <= 0 {
            return false;
        }
        if total >= 6 && self.popularity.popularity <= 0 {
            return false;
        }
        if total >= 4 && self.military.power <= 0 {
            return false;
        }
        true
    }
}

} // verus!
