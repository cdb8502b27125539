use vstd::prelude::*;

verus! {

/// Military power track: clamped to `[0, MAX]`, with a one-way star flag
/// that triggers when the track reaches its cap.
#[derive(Debug, Clone, Copy)]
pub struct MilitaryState {
    pub power: u8,
    pub star: bool,
}

pub const MAX: u8 = 16;

impl MilitaryState {
    /// The value `set` leaves on the track and its star flag.
    pub open spec fn spec_set(self, power: int) -> MilitaryState {
        MilitaryState {
            power: if power >= MAX { MAX } else { power as u8 },
            star: self.star || power >= MAX,
        }
    }

    /// `change` first saturates the addition at the `u8` bounds, then caps.
    pub open spec fn spec_change(self, power: int) -> MilitaryState {
        let moved = if self.power + power < 0 {
            0
        } else {
            self.power + power
        };
        self.spec_set(moved)
    }

    pub fn new(power: u8) -> (r: MilitaryState)
        ensures
            r.power == power,
            !r.star,
    {
        MilitaryState { power, star: false }
    }

    pub fn change(&mut self, power: i8)
        ensures
            *final(self) == old(self).spec_change(power as int),
    {
        if power >= 0 {
            self.add(power as u8);
        } else {
            let magnitude = (-(power as i16)) as u8;
            self.sub(magnitude);
        }
    }

    pub fn add(&mut self, power: u8)
        ensures
            *final(self) == old(self).spec_change(power as int),
    {
        let new_power = self.power.saturating_add(power);
        self.set(new_power);
    }

    pub fn sub(&mut self, power: u8)
        ensures
            *final(self) == old(self).spec_change(-(power as int)),
    {
        let new_power = self.power.saturating_sub(power);
        self.set(new_power);
    }

    pub fn set(&mut self, power: u8)
        ensures
            *final(self) == old(self).spec_set(power as int),
    {
        self.power = power;
        if self.power >= MAX {
            self.power = MAX;
            self.star = true;
        }
    }
}

} // verus!
