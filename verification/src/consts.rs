//! Limits and register offsets of the GICv2 register maps.

use vstd::prelude::*;

verus! {

/// Maximum ID for Software Generated Interrupts (SGI).
pub const SGI_ID_MAX: usize = 16;

/// Maximum ID for Private Peripheral Interrupts (PPI), range: 16-31.
pub const PPI_ID_MAX: usize = 32;

/// Maximum ID for Shared Peripheral Interrupts (SPI) in the shadow
/// Distributor.
pub const SPI_ID_MAX: usize = 512;

/// Number of GICH List Registers.
pub const GICH_LR_NUM: usize = 4;

/// Distributor Control Register.
pub const VGICD_CTRL: usize = 0x0000;

/// Distributor Type Register.
pub const VGICD_TYPER: usize = 0x0004;

/// Distributor Implementer Identification Register.
pub const VGICD_IIDR: usize = 0x0008;

/// Interrupt Group Registers.
pub const VGICD_IGROUPR_X: usize = 0x0080;

/// Interrupt Set-Enable Registers.
pub const VGICD_ISENABLER_X: usize = 0x0100;

/// Interrupt Clear-Enable Registers.
pub const VGICD_ICENABLER_X: usize = 0x0180;

/// Interrupt Set-Pending Registers.
pub const VGICD_ISPENDER_X: usize = 0x0200;

/// Interrupt Clear-Pending Registers.
pub const VGICD_ICPENDER_X: usize = 0x0280;

/// Interrupt Set-Active Registers.
pub const VGICD_ISACTIVER_X: usize = 0x0300;

/// Interrupt Clear-Active Registers.
pub const VGICD_ICACTIVER_X: usize = 0x0380;

/// Interrupt Priority Registers.
pub const VGICD_IPRIORITYR_X: usize = 0x0400;

/// Interrupt Target Registers.
pub const VGICD_ITARGETSR_X: usize = 0x0800;

/// Interrupt Configuration Registers.
pub const VGICD_ICFGR_X: usize = 0x0c00;

/// Software Generated Interrupt Register.
pub const VGICD_SGIR: usize = 0x0f00;

} // verus!
