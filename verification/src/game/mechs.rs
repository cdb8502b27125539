use vstd::prelude::*;

use crate::turn::mask::{spec_mech_bit, MechMask};

verus! {

/// The four mech slots a player may deploy.
#[derive(Debug, PartialEq, Eq, Structural, Hash, Clone, Copy)]
pub enum Mech {
    First,
    Second,
    Third,
    Fourth,
}

pub open spec fn spec_mech_index(mech: Mech) -> int {
    match mech {
        Mech::First => 0,
        Mech::Second => 1,
        Mech::Third => 2,
        Mech::Fourth => 3,
    }
}

impl Mech {
    pub fn index(self) -> (r: usize)
        ensures
            r == spec_mech_index(self),
    {
        match self {
            Mech::First => 0,
            Mech::Second => 1,
            Mech::Third => 2,
            Mech::Fourth => 3,
        }
    }
}

/// Per-slot mech positions in the board arena (`None` while undeployed),
/// with a one-way star flag that triggers once all four are deployed.
#[derive(Debug, Clone)]
pub struct MechsState {
    pub mechs: Vec<Option<usize>>,
    pub star: bool,
}

impl MechsState {
    /// Shape invariant: one entry per mech slot.
    pub open spec fn wf(self) -> bool {
        self.mechs@.len() == 4
    }

    pub open spec fn spec_get(self, mech: Mech) -> Option<usize> {
        self.mechs@[spec_mech_index(mech)]
    }

    pub open spec fn spec_is_deployed(self, mech: Mech) -> bool {
        self.spec_get(mech) is Some
    }

    pub open spec fn spec_all_deployed(self) -> bool {
        forall|i: int| 0 <= i < self.mechs@.len() ==> self.mechs@[i] is Some
    }

    /// How many mechs stand at the field.
    pub open spec fn spec_amount_upto(s: Seq<Option<usize>>, field: usize, n: int) -> int
        decreases n,
    {
        if n <= 0 {
            0
        } else {
            Self::spec_amount_upto(s, field, n - 1) + if s[n - 1] == Some(field) {
                1int
            } else {
                0int
            }
        }
    }

    pub open spec fn spec_amount(self, field: usize) -> int {
        Self::spec_amount_upto(self.mechs@, field, self.mechs@.len() as int)
    }

    /// The mask of deployed mech slots among the first `n`.
    pub open spec fn spec_deployed_upto(s: Seq<Option<usize>>, n: int) -> u8
        decreases n,
    {
        if n <= 0 {
            0
        } else {
            let prev = Self::spec_deployed_upto(s, n - 1);
            if s[n - 1] is Some {
                prev | spec_mech_bit_at(n - 1)
            } else {
                prev
            }
        }
    }

    /// The mask of mech slots standing at `field` among the first `n`.
    pub open spec fn spec_at_upto(s: Seq<Option<usize>>, field: usize, n: int) -> u8
        decreases n,
    {
        if n <= 0 {
            0
        } else {
            let prev = Self::spec_at_upto(s, field, n - 1);
            if s[n - 1] == Some(field) {
                prev | spec_mech_bit_at(n - 1)
            } else {
                prev
            }
        }
    }

    pub open spec fn spec_at(self, field: usize) -> MechMask {
        MechMask(Self::spec_at_upto(self.mechs@, field, self.mechs@.len() as int))
    }

    pub fn new() -> (r: MechsState)
        ensures
            r.wf(),
            !r.star,
            r.mechs@ == Seq::new(4, |i: int| None::<usize>),
            forall|m: Mech| !r.spec_is_deployed(m),
    {
        let mut mechs: Vec<Option<usize>> = Vec::new();
        mechs.push(None);
        mechs.push(None);
        mechs.push(None);
        mechs.push(None);
        let r = MechsState { star: false, mechs };
        proof {
            assert(forall|m: Mech| 0 <= #[trigger] spec_mech_index(m) < 4);
            assert(r.mechs@ =~= Seq::new(4, |i: int| None::<usize>));
        }
        r
    }

    /// Puts a mech on a field; the star triggers once every slot is
    /// deployed.
    pub fn deploy(&mut self, mech: Mech, tile: usize)
        requires
            old(self).wf(),
        ensures
            final(self).wf(),
            final(self).mechs@ == old(self).mechs@.update(spec_mech_index(mech), Some(tile)),
            final(self).star == (old(self).star || final(self).spec_all_deployed()),
    {
        let i = mech.index();
        self.mechs.set(i, Some(tile));
        let mut all = true;
        let mut k: usize = 0;
        while k < self.mechs.len()
            invariant
                0 <= k <= self.mechs@.len(),
                all == (forall|i: int| 0 <= i < k ==> self.mechs@[i] is Some),
            decreases self.mechs@.len() - k,
        {
            if self.mechs[k].is_none() {
                all = false;
            }
            k = k + 1;
        }
        if all {
            self.star = true;
        }
    }

    pub fn can_deploy(&self, mech: Mech) -> (r: bool)
        requires
            self.wf(),
        ensures
            r == !self.spec_is_deployed(mech),
    {
        !self.is_deployed(mech)
    }

    pub fn is_deployed(&self, mech: Mech) -> (r: bool)
        requires
            self.wf(),
        ensures
            r == self.spec_is_deployed(mech),
    {
        self.mechs[mech.index()].is_some()
    }

    /// How many mechs currently stand at the field.
    pub fn amount(&self, field: usize) -> (r: u8)
        requires
            self.wf(),
        ensures
            r == self.spec_amount(field),
    {
        let mut count: u8 = 0;
        let mut k: usize = 0;
        while k < self.mechs.len()
            invariant
                0 <= k <= self.mechs@.len(),
                self.mechs@.len() == 4,
                count == Self::spec_amount_upto(self.mechs@, field, k as int),
                count <= k,
            decreases self.mechs@.len() - k,
        {
            match self.mechs[k] {
                Some(f) => {
                    if f == field {
                        count = count + 1;
                    }
                }
                None => {}
            }
            k = k + 1;
        }
        count
    }

    pub fn get(&self, mech: Mech) -> (r: Option<usize>)
        requires
            self.wf(),
        ensures
            r == self.spec_get(mech),
    {
        self.mechs[mech.index()]
    }

    /// The mask of deployed mech slots.
    pub fn get_deployed(&self) -> (r: MechMask)
        requires
            self.wf(),
        ensures
            r.0 == Self::spec_deployed_upto(self.mechs@, self.mechs@.len() as int),
    {
        let mut mask: u8 = 0;
        let mut k: usize = 0;
        while k < self.mechs.len()
            invariant
                0 <= k <= self.mechs@.len(),
                self.mechs@.len() == 4,
                mask == Self::spec_deployed_upto(self.mechs@, k as int),
            decreases self.mechs@.len() - k,
        {
            if self.mechs[k].is_some() {
                mask = mask | mech_bit_at(k);
            }
            k = k + 1;
        }
        MechMask(mask)
    }

    /// The mask of mech slots standing at the field.
    pub fn at(&self, field: usize) -> (r: MechMask)
        requires
            self.wf(),
        ensures
            r == self.spec_at(field),
    {
        let mut mask: u8 = 0;
        let mut k: usize = 0;
        while k < self.mechs.len()
            invariant
                0 <= k <= self.mechs@.len(),
                self.mechs@.len() == 4,
                mask == Self::spec_at_upto(self.mechs@, field, k as int),
            decreases self.mechs@.len() - k,
        {
            match self.mechs[k] {
                Some(f) => {
                    if f == field {
                        mask = mask | mech_bit_at(k);
                    }
                }
                None => {}
            }
            k = k + 1;
        }
        MechMask(mask)
    }
}

/// The bit of the mech in slot `i`.
pub open spec fn spec_mech_bit_at(i: int) -> u8 {
    if i == 0 {
        1
    } else if i == 1 {
        2
    } else if i == 2 {
        4
    } else if i == 3 {
        8
    } else {
        0
    }
}

fn mech_bit_at(i: usize) -> (r: u8)
    ensures
        r == spec_mech_bit_at(i as int),
{
    if i == 0 {
        1
    } else if i == 1 {
        2
    } else if i == 2 {
        4
    } else if i == 3 {
        8
    } else {
        0
    }
}

/// A mech's slot bit agrees with its slot index.
pub proof fn lemma_mech_bit_index(m: Mech)
    ensures
        spec_mech_bit(m) == spec_mech_bit_at(spec_mech_index(m)),
{
}

} // verus!
