//! The register state of the physical GIC, as a value the emulation reads and
//! writes.
//!
//! The hypervisor shadows a real GIC: every passthrough decision ends in a
//! load or store on a physical Distributor or Redistributor page.  [`GicPage`]
//! holds that state, with the one piece of GIC behaviour the plain memory
//! model misses: the enable, pending and active registers come in
//! write-1-to-set / write-1-to-clear pairs that are two views of the same
//! bits, so a store never copies the written word but sets or clears the
//! backing bits.

use vstd::prelude::*;

use crate::mem::{le_read, le_write, perform_mmio_read, perform_mmio_write, MmioPage};
use crate::AccessWidth;

verus! {

/// Offset within the GICD-shaped register block that `off` addresses.  A
/// Redistributor's SGI/PPI frame repeats the Distributor layout 64 KiB into
/// the Redistributor region.
pub open spec fn block_off(off: int) -> int {
    if off >= 0x10000 {
        off - 0x10000
    } else {
        off
    }
}

/// Whether `off` addresses a write-1-to-set register: ISENABLER, ISPENDR or
/// ISACTIVER.
pub open spec fn is_set_reg(off: int) -> bool {
    let r = block_off(off);
    (0x100 <= r < 0x180) || (0x200 <= r < 0x280) || (0x300 <= r < 0x380)
}

/// Whether `off` addresses a write-1-to-clear register: ICENABLER, ICPENDR or
/// ICACTIVER.
pub open spec fn is_clear_reg(off: int) -> bool {
    let r = block_off(off);
    (0x180 <= r < 0x200) || (0x280 <= r < 0x300) || (0x380 <= r < 0x400)
}

/// The offset of the bits an access at `off` actually reaches: a
/// clear-style register is a second view of the set-style register 0x80
/// below it.
pub open spec fn backing_off(off: int) -> int {
    if is_clear_reg(off) {
        off - 0x80
    } else {
        off
    }
}

/// The value the physical GIC returns for a read of `n` bytes at `off`.
pub open spec fn gic_read(mem: Seq<u8>, off: int, n: nat) -> u64 {
    le_read(mem, backing_off(off), n)
}

/// The register state after the physical GIC accepts a write of `v` (`n`
/// bytes wide) at `off`: 1-bits stored to a set-style register set the
/// backing bits, 1-bits stored to a clear-style register clear them, and
/// every other register takes the value as written.
pub open spec fn gic_write(mem: Seq<u8>, off: int, n: nat, v: u64) -> Seq<u8> {
    if is_set_reg(off) {
        le_write(mem, off, n, le_read(mem, off, n) | v)
    } else if is_clear_reg(off) {
        le_write(mem, off - 0x80, n, le_read(mem, off - 0x80, n) & !v)
    } else {
        le_write(mem, off, n, v)
    }
}

/// The register page of a physical Distributor, or the two-frame register
/// region of one physical Redistributor.
pub struct GicPage {
    page: MmioPage,
}

impl View for GicPage {
    type V = Seq<u8>;

    closed spec fn view(&self) -> Seq<u8> {
        self.page@
    }
}

impl GicPage {
    /// A page of `len` zero bytes: every register reads as zero.
    pub fn new(len: usize) -> (r: Self)
        ensures
            r@ == Seq::new(len as nat, |i: int| 0u8),
    {
        GicPage { page: MmioPage::new(len) }
    }

    /// The size of the page in bytes.
    pub fn len(&self) -> (r: usize)
        ensures
            r == self@.len(),
    {
        self.page.len()
    }

    /// Reads `width` bytes at `off`, honouring the set/clear register pairs.
    pub fn read(&self, off: usize, width: AccessWidth) -> (r: u64)
        requires
            off + width.size() <= self@.len(),
        ensures
            r == gic_read(self@, off as int, width.size() as nat),
    {
        let base = if Self::off_is_clear_reg(off) {
            off - 0x80
        } else {
            off
        };
        perform_mmio_read(&self.page, base, width)
    }

    /// Writes `width` bytes of `val` at `off`, honouring the set/clear
    /// register pairs.
    pub fn write(&mut self, off: usize, width: AccessWidth, val: u64)
        requires
            off + width.size() <= old(self)@.len(),
        ensures
            final(self)@ == gic_write(old(self)@, off as int, width.size() as nat, val),
    {
        if Self::off_is_set_reg(off) {
            let cur = perform_mmio_read(&self.page, off, width);
            perform_mmio_write(&mut self.page, off, width, cur | val);
        } else if Self::off_is_clear_reg(off) {
            let cur = perform_mmio_read(&self.page, off - 0x80, width);
            perform_mmio_write(&mut self.page, off - 0x80, width, cur & !val);
        } else {
            perform_mmio_write(&mut self.page, off, width, val);
        }
    }

    fn off_is_set_reg(off: usize) -> (r: bool)
        ensures
            r == is_set_reg(off as int),
    {
        let b = if off >= 0x10000 {
            off - 0x10000
        } else {
            off
        };
        (0x100 <= b && b < 0x180) || (0x200 <= b && b < 0x280) || (0x300 <= b && b < 0x380)
    }

    fn off_is_clear_reg(off: usize) -> (r: bool)
        ensures
            r == is_clear_reg(off as int),
    {
        let b = if off >= 0x10000 {
            off - 0x10000
        } else {
            off
        };
        (0x180 <= b && b < 0x200) || (0x280 <= b && b < 0x300) || (0x380 <= b && b < 0x400)
    }
}

} // verus!
