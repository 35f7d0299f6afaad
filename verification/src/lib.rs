//! A virtual ARM Generic Interrupt Controller (VGIC) for a type-1 hypervisor.
//!
//! Each guest is given the illusion of owning a GIC while the host's physical
//! GIC stays shared: guest MMIO accesses to the Distributor, Redistributor and
//! ITS register pages are trapped, filtered against the set of interrupts the
//! guest owns, and either served from shadow registers or applied to the host
//! register state.

use vstd::prelude::*;

pub mod bitmap;
pub mod consts;
pub mod gicd;
pub mod gicr;
pub mod gits;
pub mod host;
pub mod interrupt;
pub mod list_register;
pub mod mem;
pub mod registers;
pub mod registers_v3;
pub mod vgic;
pub mod vgicd;
pub mod vgicdv3;
pub mod vgicrv3;
pub mod vtimer;

verus! {

/// Fallback for the host Distributor's implementer identification word,
/// for a platform where no physical GIC is exposed: always zero.  On a real
/// platform the host layer reads the word from hardware and hands it to
/// [`vgicd::Vgicd::new`] as a parameter; this function never sees it.
pub fn read_vgicd_iidr() -> (r: u32)
    ensures
        r == 0,
{
    0
}

/// Fallback for the host Distributor's type word, for a platform where no
/// physical GIC is exposed: always zero.  On a real platform the host layer
/// reads the word from hardware and hands it to [`vgicd::Vgicd::new`] as a
/// parameter; this function never sees it.
pub fn read_vgicd_typer() -> (r: u32)
    ensures
        r == 0,
{
    0
}

/// A fault the emulation reports to the hypervisor.  Guests never observe
/// it: a guest-visible problem ends in a zero read or a dropped write
/// instead.
#[derive(Clone, Copy, PartialEq, Eq, Structural, Debug)]
pub enum VgicError {
    /// The guest wrote a register that only the hardware may change, and
    /// going on would corrupt host state.
    HardwareOwnedRegister,
}

/// Width of a single trapped MMIO access, in bytes: 1, 2, 4 or 8.
#[derive(Clone, Copy, PartialEq, Eq, Structural, Debug)]
pub enum AccessWidth {
    Byte,
    Word,
    Dword,
    Qword,
}

impl AccessWidth {
    /// The number of bytes this access covers.
    pub open spec fn spec_size(self) -> usize {
        match self {
            AccessWidth::Byte => 1,
            AccessWidth::Word => 2,
            AccessWidth::Dword => 4,
            AccessWidth::Qword => 8,
        }
    }

    /// The number of bytes this access covers.
    #[verifier::when_used_as_spec(spec_size)]
    pub fn size(self) -> (r: usize)
        ensures
            r == self.spec_size(),
    {
        match self {
            AccessWidth::Byte => 1,
            AccessWidth::Word => 2,
            AccessWidth::Dword => 4,
            AccessWidth::Qword => 8,
        }
    }
}

} // verus!
