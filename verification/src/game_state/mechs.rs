use vstd::prelude::*;

use crate::game::mechs::Mech;

verus! {

/// Which of the four mechs are deployed, with a one-way star flag that
/// triggers once all four are.
#[derive(Debug, PartialEq, Eq, Structural, Clone, Copy)]
pub struct MechsState {
    pub first_deployed: bool,
    pub second_deployed: bool,
    pub third_deployed: bool,
    pub fourth_deployed: bool,
    pub star: bool,
}

impl MechsState {
    pub open spec fn spec_new() -> MechsState {
        MechsState {
            first_deployed: false,
            second_deployed: false,
            third_deployed: false,
            fourth_deployed: false,
            star: false,
        }
    }

    pub open spec fn spec_can_deploy(self, mech: Mech) -> bool {
        match mech {
            Mech::First => !self.first_deployed,
            Mech::Second => !self.second_deployed,
            Mech::Third => !self.third_deployed,
            Mech::Fourth => !self.fourth_deployed,
        }
    }

    pub open spec fn spec_all_deployed(self) -> bool {
        &&& self.first_deployed
        &&& self.second_deployed
        &&& self.third_deployed
        &&& self.fourth_deployed
    }

    /// The state after deploying one mech.
    pub open spec fn spec_deploy(self, mech: Mech) -> MechsState {
        let deployed = match mech {
            Mech::First => MechsState { first_deployed: true, ..self },
            Mech::Second => MechsState { second_deployed: true, ..self },
            Mech::Third => MechsState { third_deployed: true, ..self },
            Mech::Fourth => MechsState { fourth_deployed: true, ..self },
        };
        MechsState { star: deployed.star || deployed.spec_all_deployed(), ..deployed }
    }

    pub fn new() -> (r: MechsState)
        ensures
            r == MechsState::spec_new(),
    {
        MechsState {
            first_deployed: false,
            second_deployed: false,
            third_deployed: false,
            fourth_deployed: false,
            star: false,
        }
    }

    /// Marks one mech deployed; the star triggers once all four are.
    pub fn deploy(&mut self, mech: Mech)
        ensures
            *final(self) == old(self).spec_deploy(mech),
    {
        match mech {
            Mech::First => {
                self.first_deployed = true;
            }
            Mech::Second => {
                self.second_deployed = true;
            }
            Mech::Third => {
                self.third_deployed = true;
            }
            Mech::Fourth => {
                self.fourth_deployed = true;
            }
        }
        if self.first_deployed && self.second_deployed && self.third_deployed
            && self.fourth_deployed {
            self.star = true;
        }
    }

    pub fn can_deploy(&self, mech: Mech) -> (r: bool)
        ensures
            r == self.spec_can_deploy(mech),
    {
        match mech {
            Mech::First => !self.first_deployed,
            Mech::Second => !self.second_deployed,
            Mech::Third => !self.third_deployed,
            Mech::Fourth => !self.fourth_deployed,
        }
    }
}

} // verus!
