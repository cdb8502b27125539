use vstd::prelude::*;

use crate::game_state::{add_sat_i32, sat_add_i32};

verus! {

/// Military power track of the tile-based state: clamped to `[0, 16]`,
/// with a one-way star flag that triggers at the cap.
#[derive(Debug, PartialEq, Eq, Structural, Clone, Copy)]
pub struct MilitaryState {
    pub power: i32,
    pub star: bool,
}

impl MilitaryState {
    /// The value `set` leaves on the track and its star flag.
    pub open spec fn spec_set(self, power: int) -> MilitaryState {
        MilitaryState {
            power: if power >= 16 {
                16
            } else if power < 0 {
                0
            } else {
                power as i32
            },
            star: self.star || power >= 16,
        }
    }

    /// `add` saturates the sum at the `i32` bounds, then clamps.
    pub open spec fn spec_add(self, power: int) -> MilitaryState {
        self.spec_set(sat_add_i32(self.power as int, power))
    }

    pub fn new(power: i32) -> (r: MilitaryState)
        ensures
            r.power == power,
            !r.star,
    {
        MilitaryState { power, star: false }
    }

    pub fn add(&mut self, power: i32)
        ensures
            *final(self) == old(self).spec_add(power as int),
    {
        let sum = add_sat_i32(self.power, power);
        self.set(sum);
    }

    pub fn set(&mut self, power: i32)
        ensures
            *final(self) == old(self).spec_set(power as int),
    {
        self.power = power;
        if self.power >= 16 {
            self.power = 16;
            self.star = true;
        }
        if self.power < 0 {
            self.power = 0;
        }
    }
}

} // verus!
