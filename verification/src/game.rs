use vstd::prelude::*;

pub mod board;
pub mod buildings;
pub mod character;
pub mod game;
pub mod mechs;
pub mod military;
pub mod player;
pub mod production;
pub mod popularity;
pub mod recruits;
pub mod turnhelper;
pub mod turnpredictor;
pub mod upgrades;

verus! {

/// Every terrain category a board field may carry.
#[derive(Debug, PartialEq, Eq, Structural, Hash, Clone, Copy)]
pub enum Tile {
    Woods,
    Tundra,
    Mountain,
    Farm,
    Village,
    Lake,
    Factory,
    Home,
}

/// The four tradable resource categories.
#[derive(Debug, PartialEq, Eq, Structural, Hash, Clone, Copy)]
pub enum Resource {
    Wood,
    Metal,
    Oil,
    Food,
}

} // verus!
