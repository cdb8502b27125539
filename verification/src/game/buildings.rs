use vstd::prelude::*;

verus! {

/// The four buildings a player may place.
#[derive(Debug, PartialEq, Eq, Structural, Hash, Clone, Copy)]
pub enum Building {
    Armory,
    Monument,
    Tunnel,
    Mill,
}

/// Where each building stands in the board arena (`None` while
/// unbuilt), with a one-way star flag that triggers once all four are
/// built.
#[derive(Debug, PartialEq, Eq, Structural, Hash, Clone, Copy)]
pub struct BuildingsState {
    pub tunnel: Option<usize>,
    pub mill: Option<usize>,
    pub armory: Option<usize>,
    pub monument: Option<usize>,

    pub star: bool,
}

impl BuildingsState {
    pub open spec fn spec_get(self, building: Building) -> Option<usize> {
        match building {
            Building::Armory => self.armory,
            Building::Monument => self.monument,
            Building::Tunnel => self.tunnel,
            Building::Mill => self.mill,
        }
    }

    pub open spec fn spec_all_built(self) -> bool {
        &&& self.tunnel is Some
        &&& self.mill is Some
        &&& self.armory is Some
        &&& self.monument is Some
    }

    /// The state after placing one building.
    pub open spec fn spec_built(self, building: Building, location: usize) -> BuildingsState {
        let placed = match building {
            Building::Tunnel => BuildingsState { tunnel: Some(location), ..self },
            Building::Mill => BuildingsState { mill: Some(location), ..self },
            Building::Armory => BuildingsState { armory: Some(location), ..self },
            Building::Monument => BuildingsState { monument: Some(location), ..self },
        };
        BuildingsState { star: placed.star || placed.spec_all_built(), ..placed }
    }

    /// The state of a fresh player: nothing built.
    pub open spec fn spec_new() -> BuildingsState {
        BuildingsState { star: false, tunnel: None, mill: None, armory: None, monument: None }
    }

    pub fn new() -> (r: BuildingsState)
        ensures
            r == BuildingsState::spec_new(),
            !r.star,
            forall|b: Building| r.spec_get(b) is None,
    {
        BuildingsState {
            star: false,
            tunnel: None,
            mill: None,
            armory: None,
            monument: None,
        }
    }

    /// Places a building on a field; the star triggers once every
    /// building is placed.
    pub fn built(&mut self, building: Building, location: usize)
        ensures
            *final(self) == old(self).spec_built(building, location),
    {
        match building {
            Building::Tunnel => {
                self.tunnel = Some(location);
            }
            Building::Mill => {
                self.mill = Some(location);
            }
            Building::Armory => {
                self.armory = Some(location);
            }
            Building::Monument => {
                self.monument = Some(location);
            }
        }
        if self.tunnel.is_some() && self.mill.is_some() && self.armory.is_some()
            && self.monument.is_some() {
            self.star = true;
        }
    }

    pub fn can_build(&self, building: Building) -> (r: bool)
        ensures
            r == (self.spec_get(building) is None),
    {
        match building {
            Building::Tunnel => self.tunnel.is_none(),
            Building::Mill => self.mill.is_none(),
            Building::Armory => self.armory.is_none(),
            Building::Monument => self.monument.is_none(),
        }
    }

    pub fn is_build(&self, building: Building) -> (r: bool)
        ensures
            r == (self.spec_get(building) is Some),
    {
        !self.can_build(building)
    }

    pub fn get(&self, building: Building) -> (r: Option<usize>)
        ensures
            r == self.spec_get(building),
    {
        match building {
            Building::Armory => self.armory,
            Building::Monument => self.monument,
            Building::Tunnel => self.tunnel,
            Building::Mill => self.mill,
        }
    }
}

} // verus!
