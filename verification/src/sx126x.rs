//! Container pairing the sub-GHz radio peripheral with its RF switch.
//!
//! The radio transport itself is an external collaborator; this type only
//! holds the two halves together and hands out access to the radio.

use vstd::prelude::*;

verus! {

/// A sub-GHz radio bundled with the RF switch that routes its antenna.
pub struct Sx126x<SG, RFS> {
    sg: SG,
    rfs: RFS,
}

/// Errors of a radio operation: either the radio transport failed, or a
/// requested bandwidth has no hardware encoding.
#[derive(Debug)]
pub enum Error<E, B> {
    /// The underlying sub-GHz transport reported an error.
    SubGhz(E),
    /// The requested bandwidth cannot be represented.
    Bandwidth(B),
}

impl<SG, RFS> Sx126x<SG, RFS> {
    /// The radio peripheral held inside.
    pub closed spec fn spec_sg(self) -> SG {
        self.sg
    }

    /// The RF switch held inside.
    pub closed spec fn spec_rfs(self) -> RFS {
        self.rfs
    }

    /// Creates a new radio from its transport and RF switch.
    pub fn new(sg: SG, rfs: RFS) -> (r: Self)
        ensures
            r.spec_sg() == sg,
            r.spec_rfs() == rfs,
    {
        Sx126x { sg, rfs }
    }

    /// Returns the internal sub-GHz radio peripheral.
    pub fn as_subghz(&self) -> (r: &SG)
        ensures
            *r == self.spec_sg(),
    {
        &self.sg
    }

    /// Returns a mutable reference to the internal sub-GHz radio peripheral.
    pub fn as_mut_subghz(&mut self) -> (r: &mut SG)
        ensures
            *r == old(self).spec_sg(),
            final(self).spec_sg() == *final(r),
            final(self).spec_rfs() == old(self).spec_rfs(),
    {
        &mut self.sg
    }
}

} // verus!
