use vstd::prelude::*;

use crate::turn::turnmask::{Building, Tile};

verus! {

/// Which of the four buildings are built; the mill also records its
/// chosen production tile. The star triggers once all four are built.
#[derive(Debug, PartialEq, Eq, Structural, Clone, Copy)]
pub struct BuildingsState {
    pub mine_built: bool,
    pub mill_built: bool,
    pub armory_built: bool,
    pub monument_built: bool,

    pub mill_location: Option<Tile>,

    pub star: bool,
}

impl BuildingsState {
    pub open spec fn spec_new() -> BuildingsState {
        BuildingsState {
            mine_built: false,
            mill_built: false,
            armory_built: false,
            monument_built: false,

            mill_location: None,

            star: false,
        }
    }

    pub open spec fn spec_can_build(self, building: Building) -> bool {
        match building {
            Building::Tunnel => !self.mine_built,
            Building::Mill(_) => !self.mill_built,
            Building::Armory => !self.armory_built,
            Building::Monument => !self.monument_built,
        }
    }

    pub open spec fn spec_all_built(self) -> bool {
        &&& self.mine_built
        &&& self.mill_built
        &&& self.armory_built
        &&& self.monument_built
    }

    /// The state after placing one building; a mill records its tile.
    pub open spec fn spec_built(self, building: Building) -> BuildingsState {
        let placed = match building {
            Building::Tunnel => BuildingsState { mine_built: true, ..self },
            Building::Mill(location) => BuildingsState {
                mill_built: true,
                mill_location: Some(location),
                ..self
            },
            Building::Armory => BuildingsState { armory_built: true, ..self },
            Building::Monument => BuildingsState { monument_built: true, ..self },
        };
        BuildingsState { star: placed.star || placed.spec_all_built(), ..placed }
    }

    pub fn new() -> (r: BuildingsState)
        ensures
            r == BuildingsState::spec_new(),
    {
        BuildingsState {
            mine_built: false,
            mill_built: false,
            armory_built: false,
            monument_built: false,

            mill_location: None,

            star: false,
        }
    }

    /// Marks one building built; the star triggers once all four are.
    pub fn built(&mut self, building: Building)
        ensures
            *final(self) == old(self).spec_built(building),
    {
        match building {
            Building::Tunnel => {
                self.mine_built = true;
            }
            Building::Mill(location) => {
                self.mill_built = true;
                self.mill_location = Some(location);
            }
            Building::Armory => {
                self.armory_built = true;
            }
            Building::Monument => {
                self.monument_built = true;
            }
        }
        if self.mine_built && self.mill_built && self.armory_built && self.monument_built {
            self.star = true;
        }
    }

    pub fn can_build(&self, building: Building) -> (r: bool)
        ensures
            r == self.spec_can_build(building),
    {
        match building {
            Building::Tunnel => !self.mine_built,
            Building::Mill(_) => !self.mill_built,
            Building::Armory => !self.armory_built,
            Building::Monument => !self.monument_built,
        }
    }
}

} // verus!
