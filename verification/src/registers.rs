//! The GICv2 Distributor register map: classifies a byte offset into the
//! register, or register-family slot, it addresses.
//!
//! Families overlap where the architecture packs several views into one
//! region; classification takes the first match, in the order the map lists
//! them, exactly as a fall-through of equality checks then range checks.

use vstd::prelude::*;

verus! {

/// A classified GICv2 Distributor register: either a single register or a
/// slot (word index) within a register family.
#[derive(Clone, Copy, Debug, PartialEq, Eq, Structural)]
pub enum GicRegister {
    GicdCtlr,
    GicdTyper,
    GicdIidr,
    GicdStatusr,
    GicdIgroupr(u32),
    GicdIsenabler(u32),
    GicdIcenabler(u32),
    GicdIspendr(u32),
    GicdIcpendr(u32),
    GicdIsactiver(u32),
    GicdIcactiver(u32),
    GicdIpriorityr(u32),
    GicdItargetsr(u32),
    GicdIcfgr(u32),
    GicdPpisr(u32),
    GicdSpisr(u32),
    GicdNsacr(u32),
    GicdSgir(u32),
    GicdCpendsgir(u32),
    GicdSpendsgir(u32),
}

/// What `GicRegister::from_addr` classifies `addr` as.
pub open spec fn from_addr_spec(addr: u32) -> Option<GicRegister> {
    if addr == 0x0000 {
        Some(GicRegister::GicdCtlr)
    } else if addr == 0x0004 {
        Some(GicRegister::GicdTyper)
    } else if addr == 0x0008 {
        Some(GicRegister::GicdIidr)
    } else if addr == 0x0010 {
        Some(GicRegister::GicdStatusr)
    } else if 0x0080 <= addr < 0x0080 + 32 * 4 {
        Some(GicRegister::GicdIgroupr(((addr - 0x0080) / 4) as u32))
    } else if 0x0100 <= addr < 0x0100 + 32 * 4 {
        Some(GicRegister::GicdIsenabler(((addr - 0x0100) / 4) as u32))
    } else if 0x0180 <= addr < 0x0180 + 32 * 4 {
        Some(GicRegister::GicdIcenabler(((addr - 0x0180) / 4) as u32))
    } else if 0x0200 <= addr < 0x0200 + 32 * 4 {
        Some(GicRegister::GicdIspendr(((addr - 0x0200) / 4) as u32))
    } else if 0x0280 <= addr < 0x0280 + 32 * 4 {
        Some(GicRegister::GicdIcpendr(((addr - 0x0280) / 4) as u32))
    } else if 0x0300 <= addr < 0x0300 + 32 * 4 {
        Some(GicRegister::GicdIsactiver(((addr - 0x0300) / 4) as u32))
    } else if 0x0380 <= addr < 0x0380 + 32 * 4 {
        Some(GicRegister::GicdIcactiver(((addr - 0x0380) / 4) as u32))
    } else if 0x0400 <= addr < 0x0400 + 256 * 4 {
        Some(GicRegister::GicdIpriorityr(((addr - 0x0400) / 4) as u32))
    } else if 0x0800 <= addr < 0x0800 + 256 * 4 {
        Some(GicRegister::GicdItargetsr(((addr - 0x0800) / 4) as u32))
    } else if 0x0c00 <= addr < 0x0c00 + 64 * 4 {
        Some(GicRegister::GicdIcfgr(((addr - 0x0c00) / 4) as u32))
    } else if 0x0d00 <= addr < 0x0d00 + 32 * 4 {
        Some(GicRegister::GicdPpisr(((addr - 0x0d00) / 4) as u32))
    } else if 0x0d04 <= addr < 0x0d04 + 32 * 4 {
        Some(GicRegister::GicdSpisr(((addr - 0x0d04) / 4) as u32))
    } else if 0x0e00 <= addr < 0x0e00 + 32 * 4 {
        Some(GicRegister::GicdNsacr(((addr - 0x0e00) / 4) as u32))
    } else if 0x0f00 <= addr < 0x0f00 + 32 * 4 {
        Some(GicRegister::GicdSgir(((addr - 0x0f00) / 4) as u32))
    } else if 0x0f10 <= addr < 0x0f10 + 32 * 4 {
        Some(GicRegister::GicdCpendsgir(((addr - 0x0f10) / 4) as u32))
    } else if 0x0f20 <= addr < 0x0f20 + 32 * 4 {
        Some(GicRegister::GicdSpendsgir(((addr - 0x0f20) / 4) as u32))
    } else {
        None
    }
}

impl GicRegister {
    /// Classifies the byte offset `addr` within the Distributor page.
    pub fn from_addr(addr: u32) -> (r: Option<GicRegister>)
        ensures
            r == from_addr_spec(addr),
    {
        if addr == 0x0000 {
            Some(GicRegister::GicdCtlr)
        } else if addr == 0x0004 {
            Some(GicRegister::GicdTyper)
        } else if addr == 0x0008 {
            Some(GicRegister::GicdIidr)
        } else if addr == 0x0010 {
            Some(GicRegister::GicdStatusr)
        } else if 0x0080 <= addr && addr < 0x0080 + 32 * 4 {
            Some(GicRegister::GicdIgroupr((addr - 0x0080) / 4))
        } else if 0x0100 <= addr && addr < 0x0100 + 32 * 4 {
            Some(GicRegister::GicdIsenabler((addr - 0x0100) / 4))
        } else if 0x0180 <= addr && addr < 0x0180 + 32 * 4 {
            Some(GicRegister::GicdIcenabler((addr - 0x0180) / 4))
        } else if 0x0200 <= addr && addr < 0x0200 + 32 * 4 {
            Some(GicRegister::GicdIspendr((addr - 0x0200) / 4))
        } else if 0x0280 <= addr && addr < 0x0280 + 32 * 4 {
            Some(GicRegister::GicdIcpendr((addr - 0x0280) / 4))
        } else if 0x0300 <= addr && addr < 0x0300 + 32 * 4 {
            Some(GicRegister::GicdIsactiver((addr - 0x0300) / 4))
        } else if 0x0380 <= addr && addr < 0x0380 + 32 * 4 {
            Some(GicRegister::GicdIcactiver((addr - 0x0380) / 4))
        } else if 0x0400 <= addr && addr < 0x0400 + 256 * 4 {
            Some(GicRegister::GicdIpriorityr((addr - 0x0400) / 4))
        } else if 0x0800 <= addr && addr < 0x0800 + 256 * 4 {
            Some(GicRegister::GicdItargetsr((addr - 0x0800) / 4))
        } else if 0x0c00 <= addr && addr < 0x0c00 + 64 * 4 {
            Some(GicRegister::GicdIcfgr((addr - 0x0c00) / 4))
        } else if 0x0d00 <= addr && addr < 0x0d00 + 32 * 4 {
            Some(GicRegister::GicdPpisr((addr - 0x0d00) / 4))
        } else if 0x0d04 <= addr && addr < 0x0d04 + 32 * 4 {
            Some(GicRegister::GicdSpisr((addr - 0x0d04) / 4))
        } else if 0x0e00 <= addr && addr < 0x0e00 + 32 * 4 {
            Some(GicRegister::GicdNsacr((addr - 0x0e00) / 4))
        } else if 0x0f00 <= addr && addr < 0x0f00 + 32 * 4 {
            Some(GicRegister::GicdSgir((addr - 0x0f00) / 4))
        } else if 0x0f10 <= addr && addr < 0x0f10 + 32 * 4 {
            Some(GicRegister::GicdCpendsgir((addr - 0x0f10) / 4))
        } else if 0x0f20 <= addr && addr < 0x0f20 + 32 * 4 {
            Some(GicRegister::GicdSpendsgir((addr - 0x0f20) / 4))
        } else {
            None
        }
    }
}

} // verus!
