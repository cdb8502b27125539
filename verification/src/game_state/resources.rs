use vstd::prelude::*;

use crate::game::Resource;
use crate::game_state::{add_sat_i32, sat_add_i32};

verus! {

/// The four resource counts a player holds in the tile-based state.
#[derive(Debug, PartialEq, Eq, Structural, Clone, Copy)]
pub struct ResourcesState {
    pub wood: i32,
    pub metal: i32,
    pub oil: i32,
    pub food: i32,
}

impl ResourcesState {
    pub open spec fn spec_new() -> ResourcesState {
        ResourcesState { wood: 0, metal: 0, oil: 0, food: 0 }
    }

    /// Value invariant: counts never go negative.
    pub open spec fn wf(self) -> bool {
        &&& self.wood >= 0
        &&& self.metal >= 0
        &&& self.oil >= 0
        &&& self.food >= 0
    }

    pub open spec fn spec_get(self, resource: Resource) -> i32 {
        match resource {
            Resource::Wood => self.wood,
            Resource::Metal => self.metal,
            Resource::Oil => self.oil,
            Resource::Food => self.food,
        }
    }

    /// Sum of the four counts, saturating at the `i32` bounds.
    pub open spec fn spec_total(self) -> int {
        sat_add_i32(
            sat_add_i32(sat_add_i32(self.wood as int, self.metal as int), self.oil as int),
            self.food as int,
        )
    }

    /// One count changed by `amount`, saturating at the `i32` bounds.
    pub open spec fn spec_add(self, resource: Resource, amount: int) -> ResourcesState {
        match resource {
            Resource::Wood => ResourcesState {
                wood: sat_add_i32(self.wood as int, amount) as i32,
                ..self
            },
            Resource::Metal => ResourcesState {
                metal: sat_add_i32(self.metal as int, amount) as i32,
                ..self
            },
            Resource::Oil => ResourcesState {
                oil: sat_add_i32(self.oil as int, amount) as i32,
                ..self
            },
            Resource::Food => ResourcesState {
                food: sat_add_i32(self.food as int, amount) as i32,
                ..self
            },
        }
    }

    pub fn new() -> (r: ResourcesState)
        ensures
            r == ResourcesState::spec_new(),
    {
        ResourcesState { wood: 0, metal: 0, oil: 0, food: 0 }
    }

    pub fn total(&self) -> (r: i32)
        ensures
            r == self.spec_total(),
    {
        add_sat_i32(add_sat_i32(add_sat_i32(self.wood, self.metal), self.oil), self.food)
    }

    pub fn add(&mut self, resource: Resource, amount: i32)
        ensures
            *final(self) == old(self).spec_add(resource, amount as int),
    {
        match resource {
            Resource::Wood => {
                self.wood = add_sat_i32(self.wood, amount);
            }
            Resource::Metal => {
                self.metal = add_sat_i32(self.metal, amount);
            }
            Resource::Oil => {
                self.oil = add_sat_i32(self.oil, amount);
            }
            Resource::Food => {
                self.food = add_sat_i32(self.food, amount);
            }
        }
    }

    pub fn get(&self, resource: Resource) -> (r: i32)
        ensures
            r == self.spec_get(resource),
    {
        match resource {
            Resource::Wood => self.wood,
            Resource::Metal => self.metal,
            Resource::Oil => self.oil,
            Resource::Food => self.food,
        }
    }
}

} // verus!
