//! Per-IRQ descriptors: one record for each (guest, IRQ id) pair of the
//! GICv2 shadow Distributor.

use vstd::prelude::*;

use crate::consts::{PPI_ID_MAX, SGI_ID_MAX, SPI_ID_MAX};

verus! {

/// Interrupt trigger mode.
#[derive(Debug, Clone, Copy, PartialEq, Eq, Structural)]
pub enum TriggerMode {
    Edge,
    Level,
}

/// The classes of interrupt the GIC handles, determined by the IRQ id and
/// fixed for the descriptor's life.
#[derive(Debug, Clone, Copy, PartialEq, Eq, Structural)]
pub enum InterruptType {
    SGI,
    PPI,
    SPI,
}

/// The distributor-visible life cycle state of one interrupt.
#[derive(Debug, Clone, Copy, PartialEq, Eq, Structural)]
pub enum InterruptStatus {
    Inactive,
    Pending,
    Active,
    ActivePending,
}

/// One interrupt's record.
#[derive(Copy, Clone, PartialEq, Eq, Structural)]
pub struct Interrupt {
    pub interrupt_id: u32,
    pub vcpu_id: u32,
    pub priority: u32,
    pub status: InterruptStatus,
    pub enable: bool,
    pub trigger_mode: TriggerMode,
    pub interrupt_type: InterruptType,
}

impl Interrupt {
    /// A fresh, disabled, inactive, edge-triggered descriptor.
    pub fn new(interrupt_id: u32, vcpu_id: u32) -> (r: Interrupt)
        ensures
            r == (Interrupt {
                interrupt_id,
                vcpu_id,
                priority: 0,
                status: InterruptStatus::Inactive,
                enable: false,
                trigger_mode: TriggerMode::Edge,
                interrupt_type: InterruptType::SGI,
            }),
    {
        Interrupt {
            interrupt_id,
            vcpu_id,
            priority: 0,
            status: InterruptStatus::Inactive,
            enable: false,
            trigger_mode: TriggerMode::Edge,
            interrupt_type: InterruptType::SGI,
        }
    }
}

/// The class an IRQ id falls in: SGIs below 16, PPIs below 32, SPIs below
/// the shadow Distributor's limit.
pub open spec fn type_of_irq(id: int) -> InterruptType {
    if id < 16 {
        InterruptType::SGI
    } else if id < 32 {
        InterruptType::PPI
    } else {
        InterruptType::SPI
    }
}

/// An interrupt descriptor as the virtual Distributor holds it.
#[derive(Copy, Clone, PartialEq, Eq, Structural)]
pub struct VgicInt {
    pub inner: Interrupt,
}

impl VgicInt {
    /// A fresh descriptor for IRQ `interrupt_id`, typed by its id.
    pub fn new(interrupt_id: u32, vcpu_id: u32) -> (r: VgicInt)
        requires
            interrupt_id < SPI_ID_MAX,
        ensures
            r.inner == (Interrupt {
                interrupt_id,
                vcpu_id,
                priority: 0,
                status: InterruptStatus::Inactive,
                enable: false,
                trigger_mode: TriggerMode::Edge,
                interrupt_type: type_of_irq(interrupt_id as int),
            }),
    {
        let interrupt_type = if interrupt_id < SGI_ID_MAX as u32 {
            InterruptType::SGI
        } else if interrupt_id < PPI_ID_MAX as u32 {
            InterruptType::PPI
        } else {
            InterruptType::SPI
        };
        let mut inner = Interrupt::new(interrupt_id, vcpu_id);
        inner.interrupt_type = interrupt_type;
        VgicInt { inner }
    }

    /// Sets whether the interrupt may be delivered.
    pub fn set_enable(&mut self, enable: bool)
        ensures
            final(self).inner == (Interrupt { enable, ..old(self).inner }),
    {
        self.inner.enable = enable;
    }

    /// Whether the interrupt may be delivered.
    pub fn get_enable(&self) -> (r: bool)
        ensures
            r == self.inner.enable,
    {
        self.inner.enable
    }

    /// Sets the interrupt's priority word.
    pub fn set_priority(&mut self, priority: u32)
        ensures
            final(self).inner == (Interrupt { priority, ..old(self).inner }),
    {
        self.inner.priority = priority;
    }

    /// The interrupt's priority word.
    pub fn get_priority(&self) -> (r: u32)
        ensures
            r == self.inner.priority,
    {
        self.inner.priority
    }

    /// Targets the interrupt at a vCPU.
    pub fn set_vcpu_id(&mut self, vcpu_id: u32)
        ensures
            final(self).inner == (Interrupt { vcpu_id, ..old(self).inner }),
    {
        self.inner.vcpu_id = vcpu_id;
    }

    /// The vCPU the interrupt targets.
    pub fn get_vcpu_id(&self) -> (r: u32)
        ensures
            r == self.inner.vcpu_id,
    {
        self.inner.vcpu_id
    }

    /// Sets the life cycle state.
    pub fn set_status(&mut self, status: InterruptStatus)
        ensures
            final(self).inner == (Interrupt { status, ..old(self).inner }),
    {
        self.inner.status = status;
    }

    /// The life cycle state.
    pub fn get_status(&self) -> (r: InterruptStatus)
        ensures
            r == self.inner.status,
    {
        self.inner.status
    }

    /// Sets the trigger mode.
    pub fn set_trigger_mode(&mut self, trigger_mode: TriggerMode)
        ensures
            final(self).inner == (Interrupt { trigger_mode, ..old(self).inner }),
    {
        self.inner.trigger_mode = trigger_mode;
    }

    /// The trigger mode.
    pub fn get_trigger_mode(&self) -> (r: TriggerMode)
        ensures
            r == self.inner.trigger_mode,
    {
        self.inner.trigger_mode
    }

    /// The interrupt's class.
    pub fn get_interrupt_type(&self) -> (r: InterruptType)
        ensures
            r == self.inner.interrupt_type,
    {
        self.inner.interrupt_type
    }

    /// The injection decision: a disabled interrupt is not injected.
    pub fn inject_irq(&self) -> (r: bool)
        ensures
            r == self.inner.enable,
    {
        if self.inner.enable == false {
            return false;
        }
        true
    }
}

} // verus!
