use vstd::prelude::*;

use crate::turn::turnmask::Tile;

verus! {

/// How many of the player's workers stand on each producible tile kind,
/// capped at eight in total, with a one-way star flag that triggers at
/// the cap.
#[derive(Debug, PartialEq, Eq, Structural, Clone, Copy)]
pub struct ProductionState {
    pub wood: i32,
    pub metal: i32,
    pub oil: i32,
    pub food: i32,
    pub population: i32,

    pub star: bool,
}

impl ProductionState {
    pub open spec fn spec_empty() -> ProductionState {
        ProductionState { wood: 0, metal: 0, oil: 0, food: 0, population: 0, star: false }
    }

    /// Value invariant: counts never negative, never more than eight
    /// workers in total.
    pub open spec fn wf(self) -> bool {
        &&& self.wood >= 0
        &&& self.metal >= 0
        &&& self.oil >= 0
        &&& self.food >= 0
        &&& self.population >= 0
        &&& self.spec_total() <= 8
    }

    pub open spec fn spec_get(self, tile: Tile) -> i32 {
        match tile {
            Tile::Woods => self.wood,
            Tile::Mountain => self.metal,
            Tile::Tundra => self.oil,
            Tile::Farm => self.food,
            Tile::Village => self.population,
        }
    }

    pub open spec fn spec_total(self) -> int {
        self.wood + self.metal + self.oil + self.food + self.population
    }

    /// One count changed by `amount`, reduced so the total stays at or
    /// below eight; the star triggers once the total reaches eight.
    pub open spec fn spec_add(self, tile: Tile, amount: int) -> ProductionState {
        let reduced = if amount <= 8 - self.spec_total() {
            amount
        } else {
            8 - self.spec_total()
        };
        let bumped = match tile {
            Tile::Woods => ProductionState { wood: (self.wood + reduced) as i32, ..self },
            Tile::Mountain => ProductionState { metal: (self.metal + reduced) as i32, ..self },
            Tile::Tundra => ProductionState { oil: (self.oil + reduced) as i32, ..self },
            Tile::Farm => ProductionState { food: (self.food + reduced) as i32, ..self },
            Tile::Village => ProductionState {
                population: (self.population + reduced) as i32,
                ..self
            },
        };
        ProductionState { star: bumped.star || bumped.spec_total() >= 8, ..bumped }
    }

    /// The state after placing one worker per listed tile, in order.
    pub open spec fn spec_new(tiles: Seq<Tile>) -> ProductionState
        decreases tiles.len(),
    {
        if tiles.len() == 0 {
            ProductionState::spec_empty()
        } else {
            ProductionState::spec_new(tiles.drop_last()).spec_add(tiles.last(), 1)
        }
    }

    pub fn new(starting_fields: Vec<Tile>) -> (r: ProductionState)
        ensures
            r == ProductionState::spec_new(starting_fields@),
            r.wf(),
    {
        let mut state = ProductionState {
            wood: 0,
            metal: 0,
            oil: 0,
            food: 0,
            population: 0,
            star: false,
        };

        let mut i: usize = 0;
        while i < starting_fields.len()
            invariant
                0 <= i <= starting_fields@.len(),
                state == ProductionState::spec_new(starting_fields@.take(i as int)),
                state.wf(),
            decreases starting_fields@.len() - i,
        {
            proof {
                assert(starting_fields@.take(i + 1).drop_last() =~= starting_fields@.take(
                    i as int,
                ));
            }
            state.add(&starting_fields[i], 1);
            i = i + 1;
        }
        proof {
            assert(starting_fields@.take(starting_fields@.len() as int) =~= starting_fields@);
        }
        state
    }

    /// Moves the count of one tile kind by `amount`, capped so the total
    /// never exceeds eight. A negative amount must be covered by the
    /// tile's current count.
    pub fn add(&mut self, tile: &Tile, amount: i32)
        requires
            old(self).wf(),
            amount < 0 ==> old(self).spec_get(*tile) + amount >= 0,
        ensures
            *final(self) == old(self).spec_add(*tile, amount as int),
            final(self).wf(),
    {
        let total = self.total();
        let room = 8 - total;
        let reduced = if amount <= room {
            amount
        } else {
            room
        };

        match tile {
            Tile::Woods => self.wood += reduced,
            Tile::Mountain => self.metal += reduced,
            Tile::Tundra => self.oil += reduced,
            Tile::Farm => self.food += reduced,
            Tile::Village => self.population += reduced,
        }

        if self.total() >= 8 {
            self.star = true;
        }
    }

    pub fn get(&self, tile: &Tile) -> (r: i32)
        ensures
            r == self.spec_get(*tile),
    {
        match tile {
            Tile::Woods => self.wood,
            Tile::Mountain => self.metal,
            Tile::Tundra => self.oil,
            Tile::Farm => self.food,
            Tile::Village => self.population,
        }
    }

    pub fn total(&self) -> (r: i32)
        requires
            self.wf(),
        ensures
            r == self.spec_total(),
    {
        self.wood + self.metal + self.oil + self.food + self.population
    }
}

} // verus!
