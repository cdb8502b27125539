use vstd::prelude::*;

use crate::game::Tile;

verus! {

/// An integer coordinate pair identifying a board location.
#[derive(Debug, PartialEq, Eq, Structural, Hash, Clone, Copy)]
pub struct Position(pub i8, pub i8);

/// Static description of one playing seat: display name and setup bonuses.
#[derive(Debug, Clone)]
pub struct Player {
    pub name: String,
    pub bonus_starting_coins: u32,
    pub bonus_starting_power: u8,
    pub bonus_starting_popularity: u8,
}

/// Static description of a faction: starting stats and special powers.
#[derive(Debug, Clone)]
pub struct Faction {
    pub name: String,
    pub starting_power: u8,
    pub starting_cards: u8,

    pub riverwalk_tile1: Tile,
    pub riverwalk_tile2: Tile,
    pub mobility_power: MobilityPower,
    pub combat_power: CombatPower,
    pub faction_ability: FactionAbility,
}

#[derive(Debug, PartialEq, Eq, Structural, Hash, Clone, Copy)]
pub enum MobilityPower {
    Underpass,
    Township,
    Seaworthy,
    Wayfare,
    Submerge,
}

#[derive(Debug, PartialEq, Eq, Structural, Hash, Clone, Copy)]
pub enum CombatPower {
    Disarm,
    PeoplesArmy,
    Artillery,
    Scout,
    Camaraderie,
}

#[derive(Debug, PartialEq, Eq, Structural, Hash, Clone, Copy)]
pub enum FactionAbility {
    Relentless,
    Coercion,
    Swim,
    Meander,
    Dominate,
}

/// Static description of a player mat: starting values, the fixed
/// primary-to-secondary action linkage, and the per-category upgrade costs.
#[derive(Debug, Clone)]
pub struct PlayerMat {
    pub name: String,
    pub starting_index: u8,

    pub starting_coins: u32,
    pub starting_popularity: u8,

    /// Secondary linked to the Move and Tax primary actions.
    pub move_secondary: SecondaryAction,
    /// Secondary linked to the Trade and Promote primary actions.
    pub trade_secondary: SecondaryAction,
    /// Secondary linked to the Produce primary action.
    pub produce_secondary: SecondaryAction,
    /// Secondary linked to the Bolster and Enforce primary actions.
    pub bolster_secondary: SecondaryAction,

    pub upgrade_cost: u8,
    pub upgrade_evolutions: u8,
    pub upgrade_coins: u32,
    pub deploy_cost: u8,
    pub deploy_evolutions: u8,
    pub deploy_coins: u32,
    pub build_cost: u8,
    pub build_evolutions: u8,
    pub build_coins: u32,
    pub enlist_cost: u8,
    pub enlist_evolutions: u8,
    pub enlist_coins: u32,
}

/// The seven primary action categories a turn may open with.
#[derive(Debug, PartialEq, Eq, Structural, Hash, Clone, Copy)]
pub enum PrimaryAction {
    Move,
    Tax,
    Trade,
    Promote,
    Bolster,
    Enforce,
    Produce,
}

/// The four secondary action categories a player mat links to.
#[derive(Debug, PartialEq, Eq, Structural, Hash, Clone, Copy)]
pub enum SecondaryAction {
    Upgrade,
    Deploy,
    Build,
    Enlist,
}

/// Static board layout: the ordinary fields, the river pairs, and the
/// per-player home locations with their two starting worker fields.
#[derive(Debug, Clone)]
pub struct BoardTemplate {
    pub fields: Vec<FieldTemplate>,
    pub rivers: Vec<(Position, Position)>,
    pub starting_locations: Vec<HomeTemplate>,
}

#[derive(Debug, PartialEq, Eq, Structural, Hash, Clone, Copy)]
pub struct FieldTemplate {
    pub position: Position,
    pub tile: Tile,
    pub tunnelable: bool,
    pub explorer_token: bool,
}

#[derive(Debug, PartialEq, Eq, Structural, Hash, Clone, Copy)]
pub struct HomeTemplate {
    pub position: Position,
    pub start1: Position,
    pub start2: Position,
}

} // verus!
