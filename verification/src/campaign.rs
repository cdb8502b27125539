use vstd::prelude::*;

use crate::turn::turnmask::Tile;
use crate::template::SecondaryAction;

verus! {

/// Setup bonuses of one seat, for the tile-based state.
#[derive(Debug, Clone)]
pub struct Player {
    pub name: String,
    pub bonus_starting_coins: i32,
    pub bonus_starting_power: i32,
    pub bonus_starting_popularity: i32,
}

/// Faction setup of the tile-based state: starting stats and the two
/// tiles the starting workers occupy.
#[derive(Debug, Clone)]
pub struct Faction {
    pub name: String,
    pub starting_power: i32,
    pub starting_cards: i32,

    pub first_starting_field: Tile,
    pub second_starting_field: Tile,
}

/// Player mat setup of the tile-based state: starting values, the fixed
/// primary-to-secondary linkage, and the per-category upgrade costs.
#[derive(Debug, Clone)]
pub struct PlayerMat {
    pub name: String,
    pub starting_index: i32,

    pub starting_coins: i32,
    pub starting_popularity: i32,

    /// Secondary linked to the Move and Tax primary actions.
    pub move_secondary: SecondaryAction,
    /// Secondary linked to the Trade and Promote primary actions.
    pub trade_secondary: SecondaryAction,
    /// Secondary linked to the Produce primary action.
    pub produce_secondary: SecondaryAction,
    /// Secondary linked to the Bolster and Enforce primary actions.
    pub bolster_secondary: SecondaryAction,

    pub upgrade_cost: i32,
    pub upgrade_evolutions: i32,
    pub upgrade_coins: i32,
    pub deploy_cost: i32,
    pub deploy_evolutions: i32,
    pub deploy_coins: i32,
    pub build_cost: i32,
    pub build_evolutions: i32,
    pub build_coins: i32,
    pub enlist_cost: i32,
    pub enlist_evolutions: i32,
    pub enlist_coins: i32,
}

} // verus!
