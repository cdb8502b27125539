use vstd::prelude::*;

use crate::template::{PlayerMat, SecondaryAction};

verus! {

/// The six primary-action upgrades a player may evolve.
#[derive(Debug, PartialEq, Eq, Structural, Hash, Clone, Copy)]
pub enum PrimaryUpgrade {
    Move,
    Tax,
    Promote,
    Produce,
    Bolster,
    Enforce,
}

/// The four secondary-action categories whose evolution cost can shrink.
#[derive(Debug, PartialEq, Eq, Structural, Hash, Clone, Copy)]
pub enum SecondaryUpgrade {
    Upgrade,
    Deploy,
    Build,
    Enlist,
}

/// Which primary actions are evolved, the per-category secondary costs,
/// and a one-way star flag that triggers once all six primaries are.
#[derive(Debug, Clone, Copy)]
pub struct UpgradesState {
    pub popularity_evolved: bool,
    pub power_evolved: bool,
    pub card_evolved: bool,
    pub move_evolved: bool,
    pub tax_evolved: bool,
    pub produce_evolved: bool,

    pub upgrade_base_cost: u8,
    pub upgrade_evolution_cost: u8,
    pub upgrade_coins: u32,
    pub deploy_base_cost: u8,
    pub deploy_evolution_cost: u8,
    pub deploy_coins: u32,
    pub build_base_cost: u8,
    pub build_evolution_cost: u8,
    pub build_coins: u32,
    pub enlist_base_cost: u8,
    pub enlist_evolution_cost: u8,
    pub enlist_coins: u32,

    pub star: bool,
}

impl UpgradesState {
    /// The state a fresh player mat yields: nothing evolved, costs taken
    /// from the mat.
    pub open spec fn spec_new(mat: PlayerMat) -> UpgradesState {
        UpgradesState {
            popularity_evolved: false,
            power_evolved: false,
            card_evolved: false,
            move_evolved: false,
            tax_evolved: false,
            produce_evolved: false,

            upgrade_base_cost: mat.upgrade_cost,
            upgrade_evolution_cost: mat.upgrade_evolutions,
            upgrade_coins: mat.upgrade_coins,
            deploy_base_cost: mat.deploy_cost,
            deploy_evolution_cost: mat.deploy_evolutions,
            deploy_coins: mat.deploy_coins,
            build_base_cost: mat.build_cost,
            build_evolution_cost: mat.build_evolutions,
            build_coins: mat.build_coins,
            enlist_base_cost: mat.enlist_cost,
            enlist_evolution_cost: mat.enlist_evolutions,
            enlist_coins: mat.enlist_coins,

            star: false,
        }
    }

    pub open spec fn spec_all_evolved(self) -> bool {
        &&& self.popularity_evolved
        &&& self.power_evolved
        &&& self.card_evolved
        &&& self.move_evolved
        &&& self.tax_evolved
        &&& self.produce_evolved
    }

    pub open spec fn spec_can_upgrade_primary(self, primary: PrimaryUpgrade) -> bool {
        match primary {
            PrimaryUpgrade::Promote => !self.popularity_evolved,
            PrimaryUpgrade::Bolster => !self.power_evolved,
            PrimaryUpgrade::Enforce => !self.card_evolved,
            PrimaryUpgrade::Move => !self.move_evolved,
            PrimaryUpgrade::Tax => !self.tax_evolved,
            PrimaryUpgrade::Produce => !self.produce_evolved,
        }
    }

    pub open spec fn spec_can_upgrade_secondary(self, secondary: SecondaryUpgrade) -> bool {
        match secondary {
            SecondaryUpgrade::Upgrade => self.upgrade_evolution_cost > 0,
            SecondaryUpgrade::Deploy => self.deploy_evolution_cost > 0,
            SecondaryUpgrade::Build => self.build_evolution_cost > 0,
            SecondaryUpgrade::Enlist => self.enlist_evolution_cost > 0,
        }
    }

    /// The state after evolving one primary and spending one evolution
    /// slot of one secondary category.
    pub open spec fn spec_upgrade(
        self,
        primary: PrimaryUpgrade,
        secondary: SecondaryUpgrade,
    ) -> UpgradesState {
        let evolved = match primary {
            PrimaryUpgrade::Promote => UpgradesState { popularity_evolved: true, ..self },
            PrimaryUpgrade::Bolster => UpgradesState { power_evolved: true, ..self },
            PrimaryUpgrade::Enforce => UpgradesState { card_evolved: true, ..self },
            PrimaryUpgrade::Move => UpgradesState { move_evolved: true, ..self },
            PrimaryUpgrade::Tax => UpgradesState { tax_evolved: true, ..self },
            PrimaryUpgrade::Produce => UpgradesState { produce_evolved: true, ..self },
        };
        let spent = match secondary {
            SecondaryUpgrade::Upgrade => UpgradesState {
                upgrade_evolution_cost: if evolved.upgrade_evolution_cost > 0 {
                    (evolved.upgrade_evolution_cost - 1) as u8
                } else {
                    0
                },
                ..evolved
            },
            SecondaryUpgrade::Deploy => UpgradesState {
                deploy_evolution_cost: if evolved.deploy_evolution_cost > 0 {
                    (evolved.deploy_evolution_cost - 1) as u8
                } else {
                    0
                },
                ..evolved
            },
            SecondaryUpgrade::Build => UpgradesState {
                build_evolution_cost: if evolved.build_evolution_cost > 0 {
                    (evolved.build_evolution_cost - 1) as u8
                } else {
                    0
                },
                ..evolved
            },
            SecondaryUpgrade::Enlist => UpgradesState {
                enlist_evolution_cost: if evolved.enlist_evolution_cost > 0 {
                    (evolved.enlist_evolution_cost - 1) as u8
                } else {
                    0
                },
                ..evolved
            },
        };
        UpgradesState { star: spent.star || spent.spec_all_evolved(), ..spent }
    }

    /// The current cost of a secondary category: base cost plus the
    /// remaining evolution cost, saturating at the `u8` cap.
    pub open spec fn spec_get_upgrade_cost(self, secondary: SecondaryAction) -> int {
        let sum = match secondary {
            SecondaryAction::Upgrade => self.upgrade_base_cost + self.upgrade_evolution_cost,
            SecondaryAction::Deploy => self.deploy_base_cost + self.deploy_evolution_cost,
            SecondaryAction::Build => self.build_base_cost + self.build_evolution_cost,
            SecondaryAction::Enlist => self.enlist_base_cost + self.enlist_evolution_cost,
        };
        if sum > u8::MAX { u8::MAX as int } else { sum }
    }

    pub open spec fn spec_get_upgrade_coins(self, secondary: SecondaryUpgrade) -> u32 {
        match secondary {
            SecondaryUpgrade::Upgrade => self.upgrade_coins,
            SecondaryUpgrade::Deploy => self.deploy_coins,
            SecondaryUpgrade::Build => self.build_coins,
            SecondaryUpgrade::Enlist => self.enlist_coins,
        }
    }

    pub fn new(mat: &PlayerMat) -> (r: UpgradesState)
        ensures
            r == UpgradesState::spec_new(*mat),
            !r.popularity_evolved,
            !r.power_evolved,
            !r.card_evolved,
            !r.move_evolved,
            !r.tax_evolved,
            !r.produce_evolved,
            r.upgrade_base_cost == mat.upgrade_cost,
            r.upgrade_evolution_cost == mat.upgrade_evolutions,
            r.upgrade_coins == mat.upgrade_coins,
            r.deploy_base_cost == mat.deploy_cost,
            r.deploy_evolution_cost == mat.deploy_evolutions,
            r.deploy_coins == mat.deploy_coins,
            r.build_base_cost == mat.build_cost,
            r.build_evolution_cost == mat.build_evolutions,
            r.build_coins == mat.build_coins,
            r.enlist_base_cost == mat.enlist_cost,
            r.enlist_evolution_cost == mat.enlist_evolutions,
            r.enlist_coins == mat.enlist_coins,
            !r.star,
    {
        UpgradesState {
            popularity_evolved: false,
            power_evolved: false,
            card_evolved: false,
            move_evolved: false,
            tax_evolved: false,
            produce_evolved: false,

            upgrade_base_cost: mat.upgrade_cost,
            upgrade_evolution_cost: mat.upgrade_evolutions,
            upgrade_coins: mat.upgrade_coins,
            deploy_base_cost: mat.deploy_cost,
            deploy_evolution_cost: mat.deploy_evolutions,
            deploy_coins: mat.deploy_coins,
            build_base_cost: mat.build_cost,
            build_evolution_cost: mat.build_evolutions,
            build_coins: mat.build_coins,
            enlist_base_cost: mat.enlist_cost,
            enlist_evolution_cost: mat.enlist_evolutions,
            enlist_coins: mat.enlist_coins,

            star: false,
        }
    }

    pub fn upgrade(&mut self, primary: PrimaryUpgrade, secondary: SecondaryUpgrade)
        ensures
            *final(self) == old(self).spec_upgrade(primary, secondary),
    {
        match primary {
            PrimaryUpgrade::Promote => {
                self.popularity_evolved = true;
            }
            PrimaryUpgrade::Bolster => {
                self.power_evolved = true;
            }
            PrimaryUpgrade::Enforce => {
                self.card_evolved = true;
            }
            PrimaryUpgrade::Move => {
                self.move_evolved = true;
            }
            PrimaryUpgrade::Tax => {
                self.tax_evolved = true;
            }
            PrimaryUpgrade::Produce => {
                self.produce_evolved = true;
            }
        }
        match secondary {
            SecondaryUpgrade::Upgrade => {
                self.upgrade_evolution_cost = self.upgrade_evolution_cost.saturating_sub(1);
            }
            SecondaryUpgrade::Deploy => {
                self.deploy_evolution_cost = self.deploy_evolution_cost.saturating_sub(1);
            }
            SecondaryUpgrade::Build => {
                self.build_evolution_cost = self.build_evolution_cost.saturating_sub(1);
            }
            SecondaryUpgrade::Enlist => {
                self.enlist_evolution_cost = self.enlist_evolution_cost.saturating_sub(1);
            }
        }
        if self.popularity_evolved
            && self.power_evolved
            && self.card_evolved
            && self.move_evolved
            && self.tax_evolved
            && self.produce_evolved
        {
            self.star = true;
        }
    }

    pub fn can_upgrade(&self, primary: &PrimaryUpgrade, secondary: &SecondaryUpgrade) -> (r: bool)
        ensures
            r == (self.spec_can_upgrade_primary(*primary)
                && self.spec_can_upgrade_secondary(*secondary)),
    {
        self.can_upgrade_primary(primary) && self.can_upgrade_secondary(secondary)
    }

    pub fn can_upgrade_primary(&self, primary: &PrimaryUpgrade) -> (r: bool)
        ensures
            r == self.spec_can_upgrade_primary(*primary),
    {
        match primary {
            PrimaryUpgrade::Promote => !self.popularity_evolved,
            PrimaryUpgrade::Bolster => !self.power_evolved,
            PrimaryUpgrade::Enforce => !self.card_evolved,
            PrimaryUpgrade::Move => !self.move_evolved,
            PrimaryUpgrade::Tax => !self.tax_evolved,
            PrimaryUpgrade::Produce => !self.produce_evolved,
        }
    }

    pub fn can_upgrade_secondary(&self, secondary: &SecondaryUpgrade) -> (r: bool)
        ensures
            r == self.spec_can_upgrade_secondary(*secondary),
    {
        match secondary {
            SecondaryUpgrade::Upgrade => self.upgrade_evolution_cost > 0,
            SecondaryUpgrade::Deploy => self.deploy_evolution_cost > 0,
            SecondaryUpgrade::Build => self.build_evolution_cost > 0,
            SecondaryUpgrade::Enlist => self.enlist_evolution_cost > 0,
        }
    }

    pub fn get_upgrade_cost(&self, secondary: &SecondaryAction) -> (r: u8)
        ensures
            r == self.spec_get_upgrade_cost(*secondary),
    {
        match secondary {
            SecondaryAction::Upgrade => self
                .upgrade_base_cost
                .saturating_add(self.upgrade_evolution_cost),
            SecondaryAction::Deploy => self
                .deploy_base_cost
                .saturating_add(self.deploy_evolution_cost),
            SecondaryAction::Build => self
                .build_base_cost
                .saturating_add(self.build_evolution_cost),
            SecondaryAction::Enlist => self
                .enlist_base_cost
                .saturating_add(self.enlist_evolution_cost),
        }
    }

    pub fn get_upgrade_coins(&self, secondary: &SecondaryUpgrade) -> (r: u32)
        ensures
            r == self.spec_get_upgrade_coins(*secondary),
    {
        match secondary {
            SecondaryUpgrade::Upgrade => self.upgrade_coins,
            SecondaryUpgrade::Deploy => self.deploy_coins,
            SecondaryUpgrade::Build => self.build_coins,
            SecondaryUpgrade::Enlist => self.enlist_coins,
        }
    }
}

} // verus!
