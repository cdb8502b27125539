use vstd::prelude::*;

verus! {

/// The four recruit categories, named after the bonus they grant.
#[derive(Debug, PartialEq, Eq, Structural, Hash, Clone, Copy)]
pub enum Recruit {
    Popularity,
    Power,
    Card,
    Coin,
}

/// Which of the four "secondary" and four "one-time" recruit slots have
/// been filled, with a one-way star flag that triggers once all eight are.
#[derive(Debug, PartialEq, Eq, Structural, Clone, Copy)]
pub struct RecruitsState {
    pub secondary_military_recruited: bool,
    pub secondary_coin_recruited: bool,
    pub secondary_popularity_recruited: bool,
    pub secondary_card_recruited: bool,

    pub onetime_military_recruited: bool,
    pub onetime_coin_recruited: bool,
    pub onetime_popularity_recruited: bool,
    pub onetime_card_recruited: bool,

    pub star: bool,
}

impl RecruitsState {
    pub open spec fn spec_is_secondary_recruited(self, secondary: Recruit) -> bool {
        match secondary {
            Recruit::Power => self.secondary_military_recruited,
            Recruit::Coin => self.secondary_coin_recruited,
            Recruit::Popularity => self.secondary_popularity_recruited,
            Recruit::Card => self.secondary_card_recruited,
        }
    }

    pub open spec fn spec_is_onetime_recruited(self, onetime: Recruit) -> bool {
        match onetime {
            Recruit::Power => self.onetime_military_recruited,
            Recruit::Coin => self.onetime_coin_recruited,
            Recruit::Popularity => self.onetime_popularity_recruited,
            Recruit::Card => self.onetime_card_recruited,
        }
    }

    pub open spec fn spec_all_recruited(self) -> bool {
        &&& self.secondary_military_recruited
        &&& self.secondary_coin_recruited
        &&& self.secondary_popularity_recruited
        &&& self.secondary_card_recruited
        &&& self.onetime_military_recruited
        &&& self.onetime_coin_recruited
        &&& self.onetime_popularity_recruited
        &&& self.onetime_card_recruited
    }

    /// The state after filling one secondary and one one-time slot.
    pub open spec fn spec_recruit(self, secondary: Recruit, onetime: Recruit) -> RecruitsState {
        let with_secondary = match secondary {
            Recruit::Power => RecruitsState { secondary_military_recruited: true, ..self },
            Recruit::Coin => RecruitsState { secondary_coin_recruited: true, ..self },
            Recruit::Popularity => RecruitsState { secondary_popularity_recruited: true, ..self },
            Recruit::Card => RecruitsState { secondary_card_recruited: true, ..self },
        };
        let with_onetime = match onetime {
            Recruit::Power => RecruitsState { onetime_military_recruited: true, ..with_secondary },
            Recruit::Coin => RecruitsState { onetime_coin_recruited: true, ..with_secondary },
            Recruit::Popularity => RecruitsState {
                onetime_popularity_recruited: true,
                ..with_secondary
            },
            Recruit::Card => RecruitsState { onetime_card_recruited: true, ..with_secondary },
        };
        RecruitsState {
            star: with_onetime.star || with_onetime.spec_all_recruited(),
            ..with_onetime
        }
    }

    /// The state of a fresh player: no slot filled.
    pub open spec fn spec_new() -> RecruitsState {
        RecruitsState {
            secondary_military_recruited: false,
            secondary_coin_recruited: false,
            secondary_popularity_recruited: false,
            secondary_card_recruited: false,

            onetime_military_recruited: false,
            onetime_coin_recruited: false,
            onetime_popularity_recruited: false,
            onetime_card_recruited: false,

            star: false,
        }
    }

    pub fn new() -> (r: RecruitsState)
        ensures
            r == RecruitsState::spec_new(),
            !r.spec_is_secondary_recruited(Recruit::Power),
            !r.spec_is_secondary_recruited(Recruit::Coin),
            !r.spec_is_secondary_recruited(Recruit::Popularity),
            !r.spec_is_secondary_recruited(Recruit::Card),
            !r.spec_is_onetime_recruited(Recruit::Power),
            !r.spec_is_onetime_recruited(Recruit::Coin),
            !r.spec_is_onetime_recruited(Recruit::Popularity),
            !r.spec_is_onetime_recruited(Recruit::Card),
            !r.star,
    {
        RecruitsState {
            secondary_military_recruited: false,
            secondary_coin_recruited: false,
            secondary_popularity_recruited: false,
            secondary_card_recruited: false,

            onetime_military_recruited: false,
            onetime_coin_recruited: false,
            onetime_popularity_recruited: false,
            onetime_card_recruited: false,

            star: false,
        }
    }

    pub fn recruit(&mut self, secondary: Recruit, onetime: Recruit)
        ensures
            *final(self) == old(self).spec_recruit(secondary, onetime),
    {
        match secondary {
            Recruit::Power => {
                self.secondary_military_recruited = true;
            }
            Recruit::Coin => {
                self.secondary_coin_recruited = true;
            }
            Recruit::Popularity => {
                self.secondary_popularity_recruited = true;
            }
            Recruit::Card => {
                self.secondary_card_recruited = true;
            }
        }
        match onetime {
            Recruit::Power => {
                self.onetime_military_recruited = true;
            }
            Recruit::Coin => {
                self.onetime_coin_recruited = true;
            }
            Recruit::Popularity => {
                self.onetime_popularity_recruited = true;
            }
            Recruit::Card => {
                self.onetime_card_recruited = true;
            }
        }
        if self.secondary_military_recruited
            && self.secondary_coin_recruited
            && self.secondary_popularity_recruited
            && self.secondary_card_recruited
            && self.onetime_military_recruited
            && self.onetime_coin_recruited
            && self.onetime_popularity_recruited
            && self.onetime_card_recruited
        {
            self.star = true;
        }
    }

    pub fn can_recruit(&self, secondary: Recruit, onetime: Recruit) -> (r: bool)
        ensures
            r == (!self.spec_is_secondary_recruited(secondary)
                && !self.spec_is_onetime_recruited(onetime)),
    {
        !self.is_secondary_recruited(secondary) && !self.is_onetime_recruited(onetime)
    }

    pub fn is_secondary_recruited(&self, secondary: Recruit) -> (r: bool)
        ensures
            r == self.spec_is_secondary_recruited(secondary),
    {
        match secondary {
            Recruit::Power => self.secondary_military_recruited,
            Recruit::Coin => self.secondary_coin_recruited,
            Recruit::Popularity => self.secondary_popularity_recruited,
            Recruit::Card => self.secondary_card_recruited,
        }
    }

    pub fn is_onetime_recruited(&self, onetime: Recruit) -> (r: bool)
        ensures
            r == self.spec_is_onetime_recruited(onetime),
    {
        match onetime {
            Recruit::Power => self.onetime_military_recruited,
            Recruit::Coin => self.onetime_coin_recruited,
            Recruit::Popularity => self.onetime_popularity_recruited,
            Recruit::Card => self.onetime_card_recruited,
        }
    }
}

} // verus!
