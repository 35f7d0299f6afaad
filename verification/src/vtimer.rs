//! The virtual timer: three emulated system registers.
//!
//! `CNTPCT_EL0` reads pass the host counter through, `CNTP_TVAL_EL0` writes
//! schedule a one-shot timer whose expiry injects the virtual timer
//! interrupt, and `CNTP_CTL_EL0` is accepted and discarded.  Reading the
//! host counter, arming the host timer and injecting the interrupt are the
//! host's work; the functions here make the decisions and hand them out as
//! plain values.

use vstd::prelude::*;

verus! {

/// IRQ id of the virtual timer interrupt a timer expiry injects.
pub const VTIMER_IRQ: u32 = 30;

/// A one-shot timer the host is asked to arm: at `deadline` (host
/// nanoseconds) it injects virtual interrupt `vector`.
#[derive(Clone, Copy, PartialEq, Eq, Structural, Debug)]
pub struct TimerRequest {
    pub deadline: u64,
    pub vector: u32,
}

/// Emulation of `CNTP_CTL_EL0`, the timer control register.
pub struct SysCntpCtlEl0 {
}

impl SysCntpCtlEl0 {
    /// Creates a new CNTP_CTL_EL0 register emulator.
    pub fn new() -> (r: SysCntpCtlEl0)
        ensures
            true,
    {
        SysCntpCtlEl0 {  }
    }

    /// A guest read of the control register observes zero.
    pub fn handle_read(&self) -> (r: u64)
        ensures
            r == 0,
    {
        0
    }

    /// A guest write of the control register is accepted and discarded.
    pub fn handle_write(&self, _val: u64) {
    }
}

/// Emulation of `CNTP_TVAL_EL0`, the timer value register.
pub struct SysCntpTvalEl0 {
}

impl SysCntpTvalEl0 {
    /// Creates a new CNTP_TVAL_EL0 register emulator.
    pub fn new() -> (r: SysCntpTvalEl0)
        ensures
            true,
    {
        SysCntpTvalEl0 {  }
    }

    /// A guest write of the timer value asks the host for a one-shot timer
    /// `val` nanoseconds from `now` that injects the virtual timer
    /// interrupt.
    pub fn handle_write(&self, now: u64, val: u64) -> (r: TimerRequest)
        requires
            now + val <= u64::MAX,
        ensures
            r.deadline == now + val,
            r.vector == VTIMER_IRQ,
    {
        TimerRequest { deadline: now + val, vector: VTIMER_IRQ }
    }
}

/// Emulation of `CNTPCT_EL0`, the physical counter register.
///
/// Provides virtualization support for the physical counter register.
pub struct SysCntpctEl0 {
}

impl SysCntpctEl0 {
    /// Creates a new CNTPCT_EL0 register emulator.
    pub fn new() -> (r: SysCntpctEl0)
        ensures
            true,
    {
        SysCntpctEl0 {  }
    }

    /// A guest read of the counter observes the host counter unchanged.
    pub fn handle_read(&self, host_counter: u64) -> (r: u64)
        ensures
            r == host_counter,
    {
        host_counter
    }

    /// A guest write of the counter is accepted and discarded.
    pub fn handle_write(&self, _val: u64) {
    }
}

} // verus!
