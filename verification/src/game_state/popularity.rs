use vstd::prelude::*;

use crate::game_state::{add_sat_i32, sat_add_i32};

verus! {

/// Popularity track of the tile-based state: clamped to `[0, 18]`, with
/// a one-way star flag that triggers at the cap. Popularity decides the
/// three scoring multipliers.
#[derive(Debug, PartialEq, Eq, Structural, Clone, Copy)]
pub struct PopularityState {
    pub popularity: i32,
    pub star: bool,
}

impl PopularityState {
    /// The value `set` leaves on the track and its star flag.
    pub open spec fn spec_set(self, popularity: int) -> PopularityState {
        PopularityState {
            popularity: if popularity >= 18 {
                18
            } else if popularity < 0 {
                0
            } else {
                popularity as i32
            },
            star: self.star || popularity >= 18,
        }
    }

    /// `add` saturates the sum at the `i32` bounds, then clamps.
    pub open spec fn spec_add(self, popularity: int) -> PopularityState {
        self.spec_set(sat_add_i32(self.popularity as int, popularity))
    }

    /// The scoring multiplier tier the current popularity falls in.
    pub open spec fn spec_tier(self, low: i32, mid: i32, high: i32) -> i32 {
        if self.popularity < 7 {
            low
        } else if self.popularity < 14 {
            mid
        } else {
            high
        }
    }

    pub fn new(popularity: i32) -> (r: PopularityState)
        ensures
            r.popularity == popularity,
            !r.star,
    {
        PopularityState { popularity, star: false }
    }

    pub fn add(&mut self, popularity: i32)
        ensures
            *final(self) == old(self).spec_add(popularity as int),
    {
        let sum = add_sat_i32(self.popularity, popularity);
        self.set(sum);
    }

    pub fn set(&mut self, popularity: i32)
        ensures
            *final(self) == old(self).spec_set(popularity as int),
    {
        self.popularity = popularity;
        if self.popularity >= 18 {
            self.popularity = 18;
            self.star = true;
        }
        if self.popularity < 0 {
            self.popularity = 0;
        }
    }

    /// Coins granted per star at scoring time.
    pub fn star_multiplier(&self) -> (r: i32)
        ensures
            r == self.spec_tier(3, 4, 5),
    {
        if self.popularity < 7 {
            3
        } else if self.popularity < 14 {
            4
        } else {
            5
        }
    }

    /// Coins granted per held field at scoring time.
    pub fn fields_multiplier(&self) -> (r: i32)
        ensures
            r == self.spec_tier(2, 3, 4),
    {
        if self.popularity < 7 {
            2
        } else if self.popularity < 14 {
            3
        } else {
            4
        }
    }

    /// Coins granted per two held resources at scoring time.
    pub fn resources_multiplier(&self) -> (r: i32)
        ensures
            r == self.spec_tier(1, 2, 3),
    {
        if self.popularity < 7 {
            1
        } else if self.popularity < 14 {
            2
        } else {
            3
        }
    }
}

} // verus!
