//! The GICv2 façade: the object bound to the guest's device-dispatch table,
//! owning the shadow Distributor and serving its 64-KiB window.

use vstd::prelude::*;

use crate::interrupt::VgicInt;
use crate::registers::{from_addr_spec, GicRegister};
use crate::vgicd::{enabled_bits, with_enable, Vgicd};

verus! {

/// The GICv2 virtual interrupt controller of one guest.
pub struct Vgic {
    /// The shadow Distributor.  The hypervisor serialises trapped accesses,
    /// so the façade owns it directly.
    pub vgicd: Vgicd,
}

/// How a 32-bit guest write at offset `addr` changes the shadow
/// Distributor: a `GICD_CTLR` write replaces the control word, a write of
/// set-enable word `idx` enables every descriptor whose bit is 1, and any
/// other offset changes nothing.
pub open spec fn write32_rel(pre: Vgicd, post: Vgicd, addr: int, value: usize) -> bool {
    post.typer == pre.typer && post.iidr == pre.iidr && (match from_addr_spec(addr as u32) {
        Some(reg) => match reg {
            GicRegister::GicdCtlr => post.ctrlr == value as u32 && post.interrupt == pre.interrupt,
            GicRegister::GicdIsenabler(idx) => post.ctrlr == pre.ctrlr && (if idx < 16 {
                post.interrupt@.len() == 512 && (forall|j: int|
                    0 <= j < 512 ==> (#[trigger] post.interrupt@[j]) == (if idx as int * 32 <= j
                        < idx as int * 32 + 32 && (value as u64 >> ((j - idx as int * 32) as u64))
                        & 1 == 1 {
                        with_enable(pre.interrupt@[j], true)
                    } else {
                        pre.interrupt@[j]
                    }))
            } else {
                post.interrupt == pre.interrupt
            }),
            _ => post.ctrlr == pre.ctrlr && post.interrupt == pre.interrupt,
        },
        None => post.ctrlr == pre.ctrlr && post.interrupt == pre.interrupt,
    })
}

impl Vgic {
    /// The value a 32-bit guest read at offset `addr` returns.
    pub open spec fn read32_val(self, addr: int) -> u64 {
        match from_addr_spec(addr as u32) {
            Some(reg) => match reg {
                GicRegister::GicdCtlr => self.vgicd.ctrlr as u64,
                GicRegister::GicdTyper => self.vgicd.typer as u64,
                GicRegister::GicdIidr => self.vgicd.iidr as u64,
                GicRegister::GicdIsenabler(idx) => if idx < 16 {
                    enabled_bits(self.vgicd.interrupt@, idx as int * 32, 32) as u64
                } else {
                    0u64
                },
                _ => 0u64,
            },
            None => 0u64,
        }
    }

    /// A fresh GICv2 controller around the host Distributor's
    /// identification words.
    pub fn new(typer: u32, iidr: u32) -> (r: Vgic)
        ensures
            r.vgicd.wf(),
            r.vgicd.ctrlr == 0,
            r.vgicd.typer == typer,
            r.vgicd.iidr == iidr,
    {
        Vgic { vgicd: Vgicd::new(typer, iidr) }
    }

    /// A one-byte guest read: the byte of the containing word.
    pub fn handle_read8(&self, addr: usize) -> (r: Result<usize, crate::VgicError>)
        requires
            self.vgicd.wf(),
            addr < 0x10000,
        ensures
            r == Ok::<usize, crate::VgicError>(
                (((self.read32_val(addr as int) as usize) >> ((8 * (addr % 4)) as usize)) & 0xff)
                    as usize,
            ),
    {
        let value = self.handle_read32(addr)?;
        Ok((value >> (8 * (addr % 4))) & 0xff)
    }

    /// A two-byte guest read: the half of the containing word.
    pub fn handle_read16(&self, addr: usize) -> (r: Result<usize, crate::VgicError>)
        requires
            self.vgicd.wf(),
            addr < 0x10000,
        ensures
            r == Ok::<usize, crate::VgicError>(
                (((self.read32_val(addr as int) as usize) >> ((8 * (addr % 4)) as usize)) & 0xffff)
                    as usize,
            ),
    {
        let value = self.handle_read32(addr)?;
        Ok((value >> (8 * (addr % 4))) & 0xffff)
    }

    /// A 32-bit guest read: identification words and enable words are
    /// served from the shadow state, everything else reads as zero.
    pub fn handle_read32(&self, addr: usize) -> (r: Result<usize, crate::VgicError>)
        requires
            self.vgicd.wf(),
            addr < 0x10000,
        ensures
            r == Ok::<usize, crate::VgicError>(self.read32_val(addr as int) as usize),
    {
        match GicRegister::from_addr(addr as u32) {
            Some(reg) => match reg {
                GicRegister::GicdCtlr => Ok(self.vgicd.ctrlr as usize),
                GicRegister::GicdTyper => Ok(self.vgicd.typer as usize),
                GicRegister::GicdIidr => Ok(self.vgicd.iidr as usize),
                GicRegister::GicdIsenabler(idx) => if idx < 16 {
                    Ok(self.vgicd.vgicd_isenabler_read(idx))
                } else {
                    Ok(0)
                },
                _ => Ok(0),
            },
            None => Ok(0),
        }
    }

    /// A one-byte guest write, handled as a write of the containing word.
    pub fn handle_write8(&mut self, addr: usize, value: usize)
        requires
            old(self).vgicd.wf(),
            addr < 0x10000,
        ensures
            write32_rel(old(self).vgicd, final(self).vgicd, addr as int, value),
    {
        self.handle_write32(addr, value);
    }

    /// A two-byte guest write, handled as a write of the containing word.
    pub fn handle_write16(&mut self, addr: usize, value: usize)
        requires
            old(self).vgicd.wf(),
            addr < 0x10000,
        ensures
            write32_rel(old(self).vgicd, final(self).vgicd, addr as int, value),
    {
        self.handle_write32(addr, value);
    }

    /// A 32-bit guest write: the control word and the enable words reach
    /// the shadow state, everything else is discarded.
    pub fn handle_write32(&mut self, addr: usize, value: usize)
        requires
            old(self).vgicd.wf(),
            addr < 0x10000,
        ensures
            write32_rel(old(self).vgicd, final(self).vgicd, addr as int, value),
    {
        match GicRegister::from_addr(addr as u32) {
            Some(reg) => match reg {
                GicRegister::GicdCtlr => {
                    self.vgicd.vgicd_ctrlr_write(value);
                },
                GicRegister::GicdIsenabler(idx) => {
                    if idx < 16 {
                        self.vgicd.vgicd_isenabler_write(idx, value);
                    }
                },
                _ => {},
            },
            None => {},
        }
    }

    /// A copy of descriptor `irq`.
    pub fn fetch_irq(&self, irq: u32) -> (r: VgicInt)
        requires
            self.vgicd.wf(),
            irq < 512,
        ensures
            r == self.vgicd.interrupt@[irq as int],
    {
        self.vgicd.fetch_irq(irq)
    }

    /// Does nothing; kept so callers bound to the wider interface have
    /// something to call.
    pub fn nothing(&self, _value: u32) {
    }
}

} // verus!