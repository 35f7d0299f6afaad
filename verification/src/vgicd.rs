//! The GICv2 shadow Distributor: a fully virtual register bank over an
//! array of per-IRQ descriptors.

use vstd::prelude::*;

use crate::consts::SPI_ID_MAX;
use crate::interrupt::{type_of_irq, Interrupt, VgicInt};

verus! {

/// The word of set-enable bits for IRQs `base..base + n`: bit `i` is set
/// exactly when descriptor `base + i` is enabled.
pub open spec fn enabled_bits(s: Seq<VgicInt>, base: int, n: nat) -> u32
    decreases n,
{
    if n == 0 {
        0u32
    } else {
        enabled_bits(s, base, (n - 1) as nat) | (if s[base + n - 1].inner.enable {
            (1u32 << (((n - 1) as u32))) as u32
        } else {
            0u32
        })
    }
}

/// `v` with its enable flag replaced.
pub open spec fn with_enable(v: VgicInt, enable: bool) -> VgicInt {
    VgicInt { inner: Interrupt { enable, ..v.inner } }
}

/// The GICv2 virtual Distributor of one guest: three identification words
/// shadowed from the host, and one descriptor per IRQ.
pub struct Vgicd {
    /// Shadow of `GICD_CTLR`.
    pub ctrlr: u32,
    /// Shadow of `GICD_TYPER`, read from the host Distributor once.
    pub typer: u32,
    /// Shadow of `GICD_IIDR`, read from the host Distributor once.
    pub iidr: u32,
    /// One descriptor per IRQ id below `SPI_ID_MAX`.
    pub interrupt: Vec<VgicInt>,
}

impl Vgicd {
    /// The descriptor array covers every IRQ id and each descriptor carries
    /// its own id.
    pub open spec fn wf(self) -> bool {
        &&& self.interrupt@.len() == 512
        &&& (forall|i: int|
            0 <= i < 512 ==> (#[trigger] self.interrupt@[i]).inner.interrupt_id == i)
    }

    /// A fresh shadow Distributor around the host's identification words.
    pub fn new(typer: u32, iidr: u32) -> (r: Vgicd)
        ensures
            r.wf(),
            r.ctrlr == 0,
            r.typer == typer,
            r.iidr == iidr,
            forall|i: int|
                0 <= i < 512 ==> (#[trigger] r.interrupt@[i]) == (VgicInt {
                    inner: Interrupt {
                        interrupt_id: i as u32,
                        vcpu_id: 0,
                        priority: 0,
                        status: crate::interrupt::InterruptStatus::Inactive,
                        enable: false,
                        trigger_mode: crate::interrupt::TriggerMode::Edge,
                        interrupt_type: type_of_irq(i),
                    },
                }),
    {
        let mut gic_int: Vec<VgicInt> = Vec::new();
        let mut idx: usize = 0;
        while idx < SPI_ID_MAX
            invariant
                idx <= 512,
                gic_int@.len() == idx,
                forall|i: int|
                    0 <= i < idx ==> (#[trigger] gic_int@[i]) == (VgicInt {
                        inner: Interrupt {
                            interrupt_id: i as u32,
                            vcpu_id: 0,
                            priority: 0,
                            status: crate::interrupt::InterruptStatus::Inactive,
                            enable: false,
                            trigger_mode: crate::interrupt::TriggerMode::Edge,
                            interrupt_type: type_of_irq(i),
                        },
                    }),
            decreases 512 - idx,
        {
            gic_int.push(VgicInt::new(idx as u32, 0));
            idx = idx + 1;
        }
        Vgicd { ctrlr: 0, typer, iidr, interrupt: gic_int }
    }

    /// A guest write of the Distributor control word: stored as given.
    pub fn vgicd_ctrlr_write(&mut self, ctrlr: usize)
        ensures
            final(self).ctrlr == ctrlr as u32,
            final(self).typer == old(self).typer,
            final(self).iidr == old(self).iidr,
            final(self).interrupt == old(self).interrupt,
    {
        self.ctrlr = #[verifier::truncate] (ctrlr as u32);
    }

    /// The set-enable word `idx`: one bit per IRQ, set exactly for the
    /// enabled descriptors.
    pub fn vgicd_isenabler_read(&self, idx: u32) -> (r: usize)
        requires
            self.wf(),
            idx < 16,
        ensures
            r == enabled_bits(self.interrupt@, idx as int * 32, 32),
    {
        let mut isenabler: u32 = 0;
        let mut i: u32 = 0;
        while i < 32
            invariant
                self.wf(),
                idx < 16,
                i <= 32,
                isenabler == enabled_bits(self.interrupt@, idx as int * 32, i as nat),
            decreases 32 - i,
        {
            if self.interrupt[(idx * 32 + i) as usize].get_enable() {
                isenabler = isenabler | (1u32 << i);
            } else {
                proof {
                    assert(isenabler | 0u32 == isenabler) by (bit_vector);
                }
            }
            i = i + 1;
        }
        isenabler as usize
    }

    /// A guest write of set-enable word `idx`: every 1-bit written enables
    /// the corresponding descriptor, 0-bits change nothing.
    pub fn vgicd_isenabler_write(&mut self, idx: u32, isenabler: usize)
        requires
            old(self).wf(),
            idx < 16,
        ensures
            final(self).wf(),
            final(self).ctrlr == old(self).ctrlr,
            final(self).typer == old(self).typer,
            final(self).iidr == old(self).iidr,
            final(self).interrupt@.len() == 512,
            forall|j: int|
                0 <= j < 512 ==> (#[trigger] final(self).interrupt@[j]) == (if idx as int * 32 <= j
                    < idx as int * 32 + 32 && (isenabler as u64 >> ((j - idx as int * 32) as u64))
                    & 1 == 1 {
                    with_enable(old(self).interrupt@[j], true)
                } else {
                    old(self).interrupt@[j]
                }),
    {
        let mut i: u32 = 0;
        while i < 32
            invariant
                idx < 16,
                self.interrupt@.len() == 512,
                self.ctrlr == old(self).ctrlr,
                self.typer == old(self).typer,
                self.iidr == old(self).iidr,
                i <= 32,
                forall|j: int|
                    0 <= j < 512 ==> (#[trigger] self.interrupt@[j]) == (if idx as int * 32 <= j
                        < idx as int * 32 + i && (isenabler as u64 >> ((j - idx as int * 32)
                        as u64)) & 1 == 1 {
                        with_enable(old(self).interrupt@[j], true)
                    } else {
                        old(self).interrupt@[j]
                    }),
                forall|j: int|
                    0 <= j < 512 ==> (#[trigger] self.interrupt@[j]).inner.interrupt_id == old(
                        self,
                    ).interrupt@[j].inner.interrupt_id,
            decreases 32 - i,
        {
            proof {
                assert((isenabler as u64 >> (i as u64)) & 1 == 1 <==> isenabler & (1usize << i)
                    != 0) by (bit_vector)
                    requires
                        i < 32,
                ;
            }
            if isenabler & (1usize << i) != 0 {
                let slot = (idx * 32 + i) as usize;
                let mut item = self.interrupt[slot];
                item.set_enable(true);
                self.interrupt[slot] = item;
            }
            i = i + 1;
        }
        proof {
            assert forall|j: int| 0 <= j < 512 implies (#[trigger] self.interrupt@[j]).inner.interrupt_id
                == j by {
            }
        }
    }

    /// The injection decision for IRQ `irq`, read from its descriptor.
    pub fn inject_irq(&self, irq: u32) -> (r: bool)
        requires
            self.wf(),
            irq < 512,
        ensures
            r == self.interrupt@[irq as int].inner.enable,
    {
        self.interrupt[irq as usize].inject_irq()
    }

    /// A copy of descriptor `idx`.
    pub fn fetch_irq(&self, idx: u32) -> (r: VgicInt)
        requires
            self.wf(),
            idx < 512,
        ensures
            r == self.interrupt@[idx as int],
    {
        self.interrupt[idx as usize]
    }
}

} // verus!
