//! A staged List Register value: the word a hypervisor writes into a GICH
//! list register to present one virtual interrupt to a vCPU.

use vstd::prelude::*;

verus! {

/// One List Register word.
pub struct ListRegister {
    lr: u32,
}

impl View for ListRegister {
    type V = u32;

    closed spec fn view(&self) -> u32 {
        self.lr
    }
}

impl ListRegister {
    /// A List Register holding `value`.
    pub fn new(value: u32) -> (r: ListRegister)
        ensures
            r@ == value,
    {
        ListRegister { lr: value }
    }

    /// Replaces the word of this copy of the register; the copy is consumed.
    pub fn set(self, value: u32)
    {
        let mut this = self;
        this.lr = value;
    }

    /// The register word.
    pub fn get(&self) -> (r: u32)
        ensures
            r == self@,
    {
        self.lr
    }
}

} // verus!
