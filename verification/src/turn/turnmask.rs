use vstd::prelude::*;

use crate::game::Resource;
use crate::game::mechs::Mech;
use crate::game::recruits::Recruit;
use crate::game::upgrades::{PrimaryUpgrade, SecondaryUpgrade};

verus! {

/// The five producible terrain categories the tile-based state tracks.
#[derive(Debug, PartialEq, Eq, Structural, Hash, Clone, Copy)]
pub enum Tile {
    Woods,
    Mountain,
    Tundra,
    Farm,
    Village,
}

/// One worker relocation: source tile and target tile.
#[derive(Debug, PartialEq, Eq, Structural, Hash, Clone, Copy)]
pub struct Movement(pub Tile, pub Tile);

/// One to three worker relocations; three require the move upgrade.
#[derive(Debug, PartialEq, Eq, Structural, Hash, Clone, Copy)]
pub enum Move {
    Move1(Movement),
    Move2(Movement, Movement),
    Move3(Movement, Movement, Movement),
}

/// Produce at one to three distinct tiles; three require the produce
/// upgrade.
#[derive(Debug, PartialEq, Eq, Structural, Hash, Clone, Copy)]
pub enum Produce {
    Produce1(Tile),
    Produce2(Tile, Tile),
    Produce3(Tile, Tile, Tile),
}

/// The tile-based primary action shapes.
#[derive(Debug, PartialEq, Eq, Structural, Hash, Clone, Copy)]
pub enum Primary {
    Move(Move),
    Tax,
    Trade(Resource, Resource),
    Promote,
    Bolster,
    Enforce,
    Produce(Produce),
}

/// The buildings of the tile-based state; the mill records its chosen
/// production tile.
#[derive(Debug, PartialEq, Eq, Structural, Hash, Clone, Copy)]
pub enum Building {
    Armory,
    Monument,
    Tunnel,
    Mill(Tile),
}

/// The secondary action shapes.
#[derive(Debug, PartialEq, Eq, Structural, Hash, Clone, Copy)]
pub enum Secondary {
    Upgrade(PrimaryUpgrade, SecondaryUpgrade),
    Deploy(Mech),
    Build(Building),
    Enlist(Recruit, Recruit),
}

/// A complete turn descriptor of the tile-based state.
#[derive(Debug, PartialEq, Eq, Structural, Hash, Clone, Copy)]
pub enum TurnMask {
    PrimaryOnly(Primary),
    PrimaryAndSecondary(Primary, Secondary),
}

} // verus!
