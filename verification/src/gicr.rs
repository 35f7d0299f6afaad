//! The fully virtual GICv3 Redistributor block of one vCPU: a control frame
//! and an SGI/PPI frame, each a 4-KiB RAM page, programmed to look like a
//! freshly reset Redistributor.

use vstd::prelude::*;

use crate::gicd::cfg_bits_of;
use crate::interrupt::TriggerMode;
use crate::mem::{fill_words, perform_mmio_write, write_word, MmioPage};
use crate::AccessWidth;

verus! {

/// The `GICR_TYPER` word the block advertises: the vCPU id in the low
/// affinity field, and the Last bit on the guest's highest-numbered vCPU.
pub open spec fn gicr_typer_word(vcpu_id: usize, is_last: bool) -> u64 {
    ((vcpu_id as u64) & 0xffff) | (if is_last {
        0x10u64
    } else {
        0u64
    })
}

/// The `ICFGR1` word built from the host's trigger configuration of the 16
/// PPIs, two bits each: `0b10` edge, `0b00` level.
pub open spec fn ppi_cfg_word_rec(t: Seq<TriggerMode>, n: int) -> u32
    decreases n,
{
    if n <= 0 {
        0u32
    } else {
        ppi_cfg_word_rec(t, n - 1) | ((cfg_bits_of(t[16 + n - 1]) << ((2 * (n - 1)) as u32)) as u32)
    }
}

/// The `ICFGR1` word for PPIs 16..31.
pub open spec fn ppi_cfg_word(t: Seq<TriggerMode>) -> u32 {
    ppi_cfg_word_rec(t, 16)
}

/// The byte at offset `k` of the control frame after [`Gicr::new`]: the
/// control word disables LPIs, the type word carries the vCPU id and the
/// Last bit, the waker word marks the processor awake, and the page carries
/// the GICv3 `PIDR2`.
pub open spec fn gicr_base_init_byte(orig: Seq<u8>, vcpu_id: usize, is_last: bool, k: int) -> u8 {
    if 0x0 <= k <= 0x3 {
        0
    } else if 0x10 <= k <= 0x17 {
        (gicr_typer_word(vcpu_id, is_last) >> ((8 * (k - 0x10)) as u64)) as u8
    } else if 0x18 <= k <= 0x1b {
        0
    } else if k == 0xfe8 {
        0x3b
    } else if 0xfe9 <= k <= 0xfeb {
        0
    } else {
        orig[k]
    }
}

/// The byte at offset `k` of the SGI/PPI frame after [`Gicr::new`]: every
/// private interrupt Group 1 at priority 0xA0, disabled, not pending, not
/// active; SGIs edge-triggered as the architecture demands, PPIs as the
/// host interrupt chip has them; and the GICv3 `PIDR2`.
pub open spec fn gicr_sgi_init_byte(orig: Seq<u8>, triggers: Seq<TriggerMode>, k: int) -> u8 {
    if 0x0 <= k <= 0x3 {
        0xff
    } else if 0x180 <= k <= 0x187 {
        0xff
    } else if 0x280 <= k <= 0x287 {
        0xff
    } else if 0x380 <= k <= 0x387 {
        0xff
    } else if 0x400 <= k < 0x420 {
        0xa0
    } else if 0xc00 <= k <= 0xc03 {
        (0xaaaaaaaau64 >> ((8 * (k - 0xc00)) as u64)) as u8
    } else if 0xc04 <= k <= 0xc07 {
        ((ppi_cfg_word(triggers) as u64) >> ((8 * (k - 0xc04)) as u64)) as u8
    } else if k == 0xfe8 {
        0x3b
    } else if 0xfe9 <= k <= 0xfeb {
        0
    } else {
        orig[k]
    }
}

proof fn bv_gicr_bytes(r: u64)
    by (bit_vector)
    requires
        r < 4,
    ensures
        ((0xffffffffu64 >> (8 * r)) as u8) == 0xff,
        ((0xa0a0a0a0u64 >> (8 * r)) as u8) == 0xa0,
        ((0u64 >> (8 * r)) as u8) == 0,
        ((0x3bu64 >> (8 * r)) as u8) == (if r == 0 {
            0x3bu8
        } else {
            0u8
        }),
{
}

/// The fully virtual Redistributor of one vCPU.
pub struct Gicr {
    /// The vCPU this Redistributor belongs to.
    pub vcpu_id: usize,
    /// The IRQs that are virtual for this guest; an empty list means all of
    /// them.
    pub virt_irqs: Vec<usize>,
}

impl Gicr {
    /// Builds the vCPU's Redistributor pair: resets the control frame and
    /// the SGI/PPI frame as [`gicr_base_init_byte`] and
    /// [`gicr_sgi_init_byte`] lay them out.
    pub fn new(
        mmio_base: &mut MmioPage,
        mmio_sgi: &mut MmioPage,
        vcpu_id: usize,
        cpu_num: usize,
        triggers: &Vec<TriggerMode>,
        virt_irqs: Vec<usize>,
    ) -> (r: Gicr)
        requires
            old(mmio_base)@.len() == 0x1000,
            old(mmio_sgi)@.len() == 0x1000,
            triggers@.len() >= 32,
            1 <= cpu_num,
        ensures
            r.vcpu_id == vcpu_id,
            r.virt_irqs == virt_irqs,
            final(mmio_base)@.len() == 0x1000,
            final(mmio_sgi)@.len() == 0x1000,
            forall|k: int|
                0 <= k < 0x1000 ==> final(mmio_base)@[k] == gicr_base_init_byte(
                    old(mmio_base)@,
                    vcpu_id,
                    vcpu_id == cpu_num - 1,
                    k,
                ),
            forall|k: int|
                0 <= k < 0x1000 ==> final(mmio_sgi)@[k] == gicr_sgi_init_byte(
                    old(mmio_sgi)@,
                    triggers@,
                    k,
                ),
    {
        let is_last = vcpu_id == cpu_num - 1;
        write_word(mmio_base, 0x18, 0);
        let typer: u64 = ((vcpu_id as u64) & 0xffff) | (if is_last {
            0x10u64
        } else {
            0u64
        });
        perform_mmio_write(mmio_base, 0x10, AccessWidth::Qword, typer);
        write_word(mmio_base, 0xfe8, 0x3b);
        write_word(mmio_base, 0x0, 0);
        proof {
            assert forall|k: int| 0 <= k < 0x1000 implies mmio_base@[k] == gicr_base_init_byte(
                old(mmio_base)@,
                vcpu_id,
                is_last,
                k,
            ) by {
                if 0x0 <= k <= 0x3 {
                    bv_gicr_bytes(k as u64);
                } else if 0x18 <= k <= 0x1b {
                    bv_gicr_bytes((k - 0x18) as u64);
                } else if 0xfe8 <= k <= 0xfeb {
                    bv_gicr_bytes((k - 0xfe8) as u64);
                }
            }
        }
        write_word(mmio_sgi, 0x0, 0xffffffff);
        fill_words(mmio_sgi, 0x400, 8, 0xa0a0a0a0);
        write_word(mmio_sgi, 0xc00, 0xaaaaaaaa);
        let mut cfg: u32 = 0;
        let mut n: usize = 0;
        while n < 16
            invariant
                n <= 16,
                triggers@.len() >= 32,
                cfg == ppi_cfg_word_rec(triggers@, n as int),
            decreases 16 - n,
        {
            let cfg_bits: u32 = match triggers[16 + n] {
                TriggerMode::Level => 0,
                TriggerMode::Edge => 2,
            };
            cfg = cfg | (cfg_bits << ((2 * n) as u32));
            n = n + 1;
        }
        write_word(mmio_sgi, 0xc04, cfg);
        fill_words(mmio_sgi, 0x180, 2, 0xffffffff);
        fill_words(mmio_sgi, 0x280, 2, 0xffffffff);
        fill_words(mmio_sgi, 0x380, 2, 0xffffffff);
        write_word(mmio_sgi, 0xfe8, 0x3b);
        proof {
            assert forall|k: int| 0 <= k < 0x1000 implies mmio_sgi@[k] == gicr_sgi_init_byte(
                old(mmio_sgi)@,
                triggers@,
                k,
            ) by {
                assert(0 <= k % 4 < 4 && (k - 0x180) % 4 == k % 4 && (k - 0x280) % 4 == k % 4 && (k
                    - 0x380) % 4 == k % 4 && (k - 0x400) % 4 == k % 4) by (nonlinear_arith)
                    requires
                        0 <= k,
                ;
                bv_gicr_bytes((k % 4) as u64);
                if 0xfe8 <= k <= 0xfeb {
                    bv_gicr_bytes((k - 0xfe8) as u64);
                }
            }
        }
        Gicr { vcpu_id, virt_irqs }
    }
}

} // verus!
