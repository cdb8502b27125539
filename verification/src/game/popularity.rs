use vstd::prelude::*;

verus! {

/// Popularity track: clamped to `[0, MAX]`, with a one-way star flag that
/// triggers when the track reaches its cap. Popularity also decides the
/// three end-game scoring multipliers.
#[derive(Debug, Clone, Copy)]
pub struct PopularityState {
    pub popularity: u8,
    pub star: bool,
}

pub const MAX: u8 = 18;

impl PopularityState {
    /// The value `set` leaves on the track and its star flag.
    pub open spec fn spec_set(self, popularity: int) -> PopularityState {
        PopularityState {
            popularity: if popularity >= MAX { MAX } else { popularity as u8 },
            star: self.star || popularity >= MAX,
        }
    }

    /// `change` first saturates the addition at the `u8` bounds, then caps.
    pub open spec fn spec_change(self, popularity: int) -> PopularityState {
        let moved = if self.popularity + popularity < 0 {
            0
        } else {
            self.popularity + popularity
        };
        self.spec_set(moved)
    }

    /// The scoring multiplier tier the current popularity falls in.
    pub open spec fn spec_tier(self, low: u8, mid: u8, high: u8) -> u8 {
        if self.popularity < 7 {
            low
        } else if self.popularity < 14 {
            mid
        } else {
            high
        }
    }

    pub fn new(popularity: u8) -> (r: PopularityState)
        ensures
            r.popularity == popularity,
            !r.star,
    {
        PopularityState { popularity, star: false }
    }

    pub fn change(&mut self, popularity: i8)
        ensures
            *final(self) == old(self).spec_change(popularity as int),
    {
        if popularity >= 0 {
            self.add(popularity as u8);
        } else {
            let magnitude = (-(popularity as i16)) as u8;
            self.sub(magnitude);
        }
    }

    pub fn add(&mut self, popularity: u8)
        ensures
            *final(self) == old(self).spec_change(popularity as int),
    {
        let new_popularity = self.popularity.saturating_add(popularity);
        self.set(new_popularity);
    }

    pub fn sub(&mut self, popularity: u8)
        ensures
            *final(self) == old(self).spec_change(-(popularity as int)),
    {
        let new_popularity = self.popularity.saturating_sub(popularity);
        self.set(new_popularity);
    }

    pub fn set(&mut self, popularity: u8)
        ensures
            *final(self) == old(self).spec_set(popularity as int),
    {
        self.popularity = popularity;
        if self.popularity >= MAX {
            self.popularity = MAX;
            self.star = true;
        }
    }

    /// Coins granted per star at scoring time.
    pub fn star_multiplier(&self) -> (r: u8)
        ensures
            r == self.spec_tier(3, 4, 5),
    {
        if self.popularity < 7 {
            3
        } else if self.popularity < 14 {
            4
        } else {
            5
        }
    }

    /// Coins granted per controlled field at scoring time.
    pub fn fields_multiplier(&self) -> (r: u8)
        ensures
            r == self.spec_tier(2, 3, 4),
    {
        if self.popularity < 7 {
            2
        } else if self.popularity < 14 {
            3
        } else {
            4
        }
    }

    /// Coins granted per two held resources at scoring time.
    pub fn resources_multiplier(&self) -> (r: u8)
        ensures
            r == self.spec_tier(1, 2, 3),
    {
        if self.popularity < 7 {
            1
        } else if self.popularity < 14 {
            2
        } else {
            3
        }
    }
}

} // verus!
