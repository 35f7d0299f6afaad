//! Byte offsets of the GICv3 Distributor, Redistributor and ITS registers
//! within their MMIO pages, as the ARM GIC architecture lays them out.
//!
//! A trapped guest access is classified by comparing its offset against these
//! constants and ranges; the classification decides whether the access is
//! passed through, masked, served from a shadow word, or discarded.

use vstd::prelude::*;

verus! {

/// Number of IRQ ids the Distributor covers, the special ids 1020..1023
/// included.
pub const MAX_IRQ_V3: usize = 1024;

pub const GICD_CTLR: usize = 0x0000;
pub const GICD_TYPER: usize = 0x0004;
pub const GICD_IIDR: usize = 0x0008;
pub const GICD_TYPER2: usize = 0x000c;

pub const GICD_IGROUPR: usize = 0x0080;
pub const GICD_ISENABLER: usize = 0x0100;
pub const GICD_ICENABLER: usize = 0x0180;
pub const GICD_ISPENDR: usize = 0x0200;
pub const GICD_ICPENDR: usize = 0x0280;
pub const GICD_ISACTIVER: usize = 0x0300;
pub const GICD_ICACTIVER: usize = 0x0380;
pub const GICD_IPRIORITYR: usize = 0x0400;
pub const GICD_ITARGETSR: usize = 0x0800;
pub const GICD_ICFGR: usize = 0x0c00;
pub const GICD_IGRPMODR: usize = 0x0d00;
pub const GICD_NSACR: usize = 0x0e00;
pub const GICD_SGIR: usize = 0x0f00;
pub const GICD_CPENDSGIR: usize = 0x0f10;
pub const GICD_SPENDSGIR: usize = 0x0f20;
pub const GICD_IROUTER: usize = 0x6000;

pub const GICDV3_PIDR4: usize = 0xffd0;
pub const GICDV3_PIDR0: usize = 0xffe0;
pub const GICDV3_PIDR2: usize = 0xffe8;
pub const GICDV3_CIDR0: usize = 0xfff0;

/// End (exclusive) of the IROUTER range: 1024 eight-byte routing words.
pub const GICD_IROUTER_END: usize = 0x8000;

/// End (exclusive) of the ITARGETSR range: 1024 one-byte target fields.
pub const GICD_ITARGETSR_END: usize = 0x0c00;

/// End (exclusive) of each 32-word bit-per-IRQ register block.
pub const GICD_IGROUPR_END: usize = 0x0100;

pub const GICD_ISENABLER_END: usize = 0x0180;

pub const GICD_ICENABLER_END: usize = 0x0200;

pub const GICD_ISPENDR_END: usize = 0x0280;

pub const GICD_ICPENDR_END: usize = 0x0300;

pub const GICD_ISACTIVER_END: usize = 0x0380;

pub const GICD_ICACTIVER_END: usize = 0x0400;

pub const GICD_IPRIORITYR_END: usize = 0x0800;

pub const GICD_ICFGR_END: usize = 0x0d00;

pub const GICD_IGRPMODR_END: usize = 0x0d80;

pub const GICDV3_PIDR4_END: usize = 0xffe0;

pub const GICDV3_PIDR0_END: usize = 0xfff0;

pub const GICDV3_CIDR0_END: usize = 0x10000;

pub const GITS_CTRL: usize = 0x0000;
pub const GITS_IIDR: usize = 0x0004;
pub const GITS_TYPER: usize = 0x0008;
pub const GITS_CBASER: usize = 0x0080;
pub const GITS_CWRITER: usize = 0x0088;
pub const GITS_CREADR: usize = 0x0090;
pub const GITS_BASER: usize = 0x0100;
pub const GITS_DT_BASER: usize = 0x0100;
pub const GITS_CT_BASER: usize = 0x0108;

pub const GICR_CTLR: usize = 0x0000;
pub const GICR_IIDR: usize = 0x0004;
pub const GICR_TYPER: usize = 0x0008;
pub const GICR_STATUSR: usize = 0x0010;
pub const GICR_WAKER: usize = 0x0014;
pub const GICR_SETLPIR: usize = 0x0040;
pub const GICR_CLRLPIR: usize = 0x0048;
pub const GICR_PROPBASER: usize = 0x0070;
pub const GICR_PENDBASER: usize = 0x0078;
pub const GICR_INVLPIR: usize = 0x00a0;
pub const GICR_INVALLR: usize = 0x00b0;
pub const GICR_SYNCR: usize = 0x00c0;
pub const GICR_IMPL_DEF_IDENT_REGS_START: usize = 0xffd0;
pub const GICR_IMPL_DEF_IDENT_REGS_END: usize = 0xfffc;
pub const GICR_SGI_BASE: usize = 0x10000;

pub const GICR_IGROUPR: usize = 0x10080;
pub const GICR_ISENABLER: usize = 0x10100;
pub const GICR_ICENABLER: usize = 0x10180;
pub const GICR_ISPENDR: usize = 0x10200;
pub const GICR_ICPENDR: usize = 0x10280;
pub const GICR_ISACTIVER: usize = 0x10300;
pub const GICR_ICACTIVER: usize = 0x10380;
pub const GICR_IPRIORITYR: usize = 0x10400;
pub const GICR_ICFGR: usize = 0x10c00;
pub const GICR_IGRPMODR: usize = 0x10d00;

/// End (exclusive) of the Redistributor priority block: 8 words for IRQs
/// 0..31.
pub const GICR_IPRIORITYR_END: usize = 0x10420;

/// End (exclusive) of the Redistributor configuration block: 2 words.
pub const GICR_ICFGR_END: usize = 0x10c08;

/// The bit of `GICR_TYPER` that marks the last Redistributor in a guest's
/// view.
pub const GICR_TYPER_LAST: u64 = 0x10;

/// IRQ id of the hypervisor's maintenance interrupt, which a guest must not
/// be able to disable.
pub const MAINTENACE_INTERRUPT: u64 = 25;

/// Size of the Distributor MMIO page.
pub const DEFAULT_GICD_SIZE: usize = 0x10000;

/// Size of each Redistributor frame: 64 KiB of control registers followed by
/// 64 KiB of SGI/PPI registers.
pub const DEFAULT_SIZE_PER_GICR: usize = 0x20000;

/// Size of the ITS MMIO region: two 64-KiB frames.
pub const DEFAULT_GITS_SIZE: usize = 0x20000;

} // verus!
