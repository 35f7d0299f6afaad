//! The fully virtual GICv3 Distributor block.
//!
//! Where the platform gives a guest a private, RAM-backed Distributor page
//! instead of a masked view of the host's, the page must be programmed to
//! look like a freshly reset GICv3 Distributor: identification words, group
//! and priority defaults, all interrupts disabled and cleared.  The guest
//! then reconfigures trigger modes by writing `ICFGR`; a periodic sweep
//! compares the page against a snapshot and reports every reconfigured SPI
//! so the host interrupt chip can follow.

use vstd::prelude::*;

use crate::interrupt::TriggerMode;
use crate::mem::{fill_words, le_read, perform_mmio_read, write_word, MmioPage};
use crate::AccessWidth;

verus! {

/// The byte at offset `k` of a virtual Distributor block after
/// [`Gicd::new`] has programmed it, given the block's previous bytes and
/// the guest's vCPU count: the control word enables affinity routing with
/// security disabled, the type word advertises 1020 interrupt lines and the
/// vCPU count, every interrupt is Group 1 at priority 0xA0, disabled, not
/// pending, not active, and each 4-KiB page carries the GICv3 `PIDR2`.
pub open spec fn gicd_init_byte(orig: Seq<u8>, cpu_num: nat, k: int) -> u8 {
    if k == 0x0 {
        0x60
    } else if 0x1 <= k <= 0x3 {
        0
    } else if k == 0x4 {
        (30u64 | (((cpu_num as u64) & 0x7) << 5)) as u8
    } else if 0x5 <= k <= 0x7 {
        0
    } else if 0x80 <= k < 0x100 {
        0xff
    } else if 0x180 <= k < 0x200 {
        0xff
    } else if 0x280 <= k < 0x300 {
        0xff
    } else if 0x380 <= k < 0x400 {
        0xff
    } else if 0x400 <= k < 0x7fc {
        0xa0
    } else if 0xd00 <= k < 0xd80 {
        0
    } else if 0xe00 <= k < 0xe80 {
        0
    } else if k % 0x1000 == 0xfe8 && 0 <= k / 0x1000 < 16 {
        0x3b
    } else if 0xfe9 <= k % 0x1000 <= 0xfeb && 0 <= k / 0x1000 < 16 {
        0
    } else {
        orig[k]
    }
}

/// The two-bit `ICFGR` field of IRQ `q` in a sequence of configuration
/// words.
pub open spec fn cfg_field(shot: Seq<u32>, q: int) -> u32 {
    (shot[q / 16] >> ((2 * (q % 16)) as u32)) & 3
}

/// The `ICFGR` encoding of a trigger mode: `0b00` level, `0b10` edge.
pub open spec fn cfg_bits_of(t: TriggerMode) -> u32 {
    match t {
        TriggerMode::Edge => 2u32,
        TriggerMode::Level => 0u32,
    }
}

proof fn bv_word_bytes(r: u64, v: u64)
    by (bit_vector)
    requires
        r < 4,
        v <= 0xff,
    ensures
        ((0xffffffffu64 >> (8 * r)) as u8) == 0xff,
        ((0xa0a0a0a0u64 >> (8 * r)) as u8) == 0xa0,
        ((0u64 >> (8 * r)) as u8) == 0,
        ((0x3bu64 >> (8 * r)) as u8) == (if r == 0 {
            0x3bu8
        } else {
            0u8
        }),
        ((0x60u64 >> (8 * r)) as u8) == (if r == 0 {
            0x60u8
        } else {
            0u8
        }),
        ((v >> (8 * r)) as u8) == (if r == 0 {
            v as u8
        } else {
            0u8
        }),
{
}

proof fn bv_cfg_or(x: u32, b: u32, s: u32, s2: u32)
    by (bit_vector)
    requires
        b <= 3,
        s < 32,
        s2 < 32,
        s % 2 == 0,
        s2 % 2 == 0,
    ensures
        s2 == s ==> ((x | (b << s)) >> s2) & 3 == (((x >> s) & 3) | b),
        s2 != s ==> ((x | (b << s)) >> s2) & 3 == (x >> s2) & 3,
        ((0u32 >> s2) & 3) == 0,
        ((x >> s) & 3) == 0 ==> (((x >> s) & 3) | b) == b,
{
}

/// The fully virtual Distributor of one guest, with the configuration
/// snapshot used to spot guest reconfiguration.
pub struct Gicd {
    /// The last-seen `ICFGR` words of the block.
    pub cfg_shot: Vec<u32>,
    /// The IRQs that are virtual for this guest; an empty list means all of
    /// them.
    pub virt_irqs: Vec<usize>,
}

impl Gicd {
    /// The snapshot covers the 64 `ICFGR` words.
    pub open spec fn wf(self) -> bool {
        self.cfg_shot@.len() == 64
    }

    /// Builds the guest's Distributor block: resets the page as
    /// [`gicd_init_byte`] lays it out and snapshots the trigger
    /// configuration the host interrupt chip currently has for each SPI.
    pub fn new(
        page: &mut MmioPage,
        cpu_num: usize,
        triggers: &Vec<TriggerMode>,
        virt_irqs: Vec<usize>,
    ) -> (r: Gicd)
        requires
            old(page)@.len() == 0x10000,
            triggers@.len() >= 1020,
        ensures
            r.wf(),
            r.virt_irqs == virt_irqs,
            final(page)@.len() == 0x10000,
            forall|k: int|
                0 <= k < 0x10000 ==> final(page)@[k] == gicd_init_byte(
                    old(page)@,
                    cpu_num as nat,
                    k,
                ),
            forall|irq: int|
                0 <= irq < 1024 ==> #[trigger] cfg_field(r.cfg_shot@, irq) == (if 32 <= irq < 1020 {
                    cfg_bits_of(triggers@[irq])
                } else {
                    0u32
                }),
    {
        let c32: u32 = #[verifier::truncate] (cpu_num as u32);
        let typer_val: u32 = 30u32 | ((c32 & 0x7) << 5);
        let ghost cv = cpu_num as u64;
        proof {
            assert(c32 == (cv as u32));
            assert((typer_val as u64) == (30u64 | ((cv & 0x7) << 5)) && typer_val <= 0xff) by {
                assert(((30u32 | (((cv as u32) & 0x7) << 5)) as u64) == (30u64 | ((cv & 0x7) << 5))
                    && (30u64 | ((cv & 0x7) << 5)) <= 0xff) by (bit_vector);
            }
        }
        write_word(page, 0x4, typer_val);
        write_word(page, 0x0, 0x60);
        fill_words(page, 0x80, 32, 0xffffffff);
        fill_words(page, 0xd00, 32, 0);
        fill_words(page, 0x400, 255, 0xa0a0a0a0);
        let cfg_shot = build_cfg_shot(triggers);
        fill_words(page, 0xe00, 32, 0);
        fill_words(page, 0x180, 32, 0xffffffff);
        fill_words(page, 0x280, 32, 0xffffffff);
        fill_words(page, 0x380, 32, 0xffffffff);
        proof {
            assert forall|k: int| 0 <= k < 0x10000 implies page@[k] == mid_state(
                old(page)@,
                cpu_num as nat,
            )[k] by {
                assert(0 <= k % 4 < 4 && (k - 0x80) % 4 == k % 4 && (k - 0x180) % 4 == k % 4 && (k
                    - 0x280) % 4 == k % 4 && (k - 0x380) % 4 == k % 4 && (k - 0x400) % 4 == k % 4
                    && (k - 0xd00) % 4 == k % 4 && (k - 0xe00) % 4 == k % 4) by (nonlinear_arith)
                    requires
                        0 <= k,
                ;
                bv_word_bytes((k % 4) as u64, typer_val as u64);
            }
        }
        let mut p: usize = 0;
        while p < 16
            invariant
                p <= 16,
                page@.len() == 0x10000,
                forall|k: int|
                    0 <= k < 0x10000 ==> page@[k] == (if k % 0x1000 == 0xfe8 && k / 0x1000 < p {
                        0x3bu8
                    } else if 0xfe9 <= k % 0x1000 <= 0xfeb && k / 0x1000 < p {
                        0u8
                    } else {
                        mid_state(old(page)@, cpu_num as nat)[k]
                    }),
            decreases 16 - p,
        {
            write_word(page, p * 0x1000 + 0xfe8, 0x3b);
            proof {
                assert forall|k: int| 0 <= k < 0x10000 implies page@[k] == (if k % 0x1000 == 0xfe8
                    && k / 0x1000 < p + 1 {
                    0x3bu8
                } else if 0xfe9 <= k % 0x1000 <= 0xfeb && k / 0x1000 < p + 1 {
                    0u8
                } else {
                    mid_state(old(page)@, cpu_num as nat)[k]
                }) by {
                    if !(p * 0x1000 + 0xfe8 <= k < p * 0x1000 + 0xfec) {
                        assert(!(k % 0x1000 == 0xfe8 && k / 0x1000 == p) && !(0xfe9 <= k % 0x1000
                            <= 0xfeb && k / 0x1000 == p)) by (nonlinear_arith)
                            requires
                                0 <= k,
                                !(p * 0x1000 + 0xfe8 <= k < p * 0x1000 + 0xfec),
                        ;
                    } else {
                        assert(k / 0x1000 == p && k % 0x1000 == k - p * 0x1000) by (nonlinear_arith)
                            requires
                                p * 0x1000 + 0xfe8 <= k < p * 0x1000 + 0xfec,
                        ;
                        bv_word_bytes((k - (p * 0x1000 + 0xfe8)) as u64, 0);
                    }
                }
            }
            p = p + 1;
        }
        proof {
            assert forall|k: int| 0 <= k < 0x10000 implies page@[k] == gicd_init_byte(
                old(page)@,
                cpu_num as nat,
                k,
            ) by {
                assert(0 <= k % 0x1000 < 0x1000 && 0 <= k / 0x1000 < 16) by (nonlinear_arith)
                    requires
                        0 <= k < 0x10000,
                ;
                if !(k % 0x1000 == 0xfe8 || 0xfe9 <= k % 0x1000 <= 0xfeb) {
                    lemma_mid_state_byte(old(page)@, cpu_num as nat, k, typer_val);
                }
            }
        }
        Gicd { cfg_shot, virt_irqs }
    }
}

/// The `ICFGR` word `r` of the block.
pub open spec fn icfgr_word(mem: Seq<u8>, r: int) -> u64 {
    le_read(mem, 0xc00 + 4 * r, 4)
}

/// The reconfigurations one sweep reports, over the IRQs below `n`: every
/// SPI whose two-bit configuration field in the block differs from the
/// snapshot — restricted to the guest's virtual IRQ list when one was
/// given — paired with its new trigger mode, in ascending IRQ order.
pub open spec fn cfg_changes(shot: Seq<u32>, mem: Seq<u8>, virt: Seq<usize>, n: int) -> Seq<
    (usize, TriggerMode),
>
    decreases n,
{
    if n <= 32 {
        Seq::empty()
    } else {
        let irq = n - 1;
        let prev = cfg_changes(shot, mem, virt, n - 1);
        if irq < 1020 {
            let s = (2 * (irq % 16)) as u64;
            let oldb = ((shot[irq / 16] as u64) >> s) & 3;
            let newb = (icfgr_word(mem, irq / 16) >> s) & 3;
            if oldb != newb && (virt.len() == 0 || virt.contains(irq as usize)) {
                prev.push(
                    (
                        irq as usize,
                        if newb == 2 {
                            TriggerMode::Edge
                        } else {
                            TriggerMode::Level
                        },
                    ),
                )
            } else {
                prev
            }
        } else {
            prev
        }
    }
}

/// Whether `x` occurs in `v`.
fn contains_irq(v: &Vec<usize>, x: usize) -> (r: bool)
    ensures
        r == v@.contains(x),
{
    let mut i: usize = 0;
    while i < v.len()
        invariant
            i <= v@.len(),
            forall|j: int| 0 <= j < i ==> v@[j] != x,
        decreases v@.len() - i,
    {
        if v[i] == x {
            return true;
        }
        i = i + 1;
    }
    false
}

impl Gicd {
    /// One sweep of the guest's `ICFGR` words: reports every reconfigured
    /// SPI with its new trigger mode, so the host interrupt chip can be
    /// updated, and refreshes the snapshot to the block's current words.
    pub fn setup_cfg(&mut self, page: &MmioPage) -> (out: Vec<(usize, TriggerMode)>)
        requires
            old(self).wf(),
            page@.len() == 0x10000,
        ensures
            final(self).wf(),
            final(self).virt_irqs == old(self).virt_irqs,
            out@ == cfg_changes(old(self).cfg_shot@, page@, old(self).virt_irqs@, 1020),
            forall|r: int|
                0 <= r < 64 ==> (#[trigger] final(self).cfg_shot@[r]) as u64 == icfgr_word(
                    page@,
                    r,
                ),
    {
        let mut out: Vec<(usize, TriggerMode)> = Vec::new();
        let mut irq: usize = 32;
        while irq < 1020
            invariant
                32 <= irq <= 1020,
                self == old(self),
                self.cfg_shot@.len() == 64,
                page@.len() == 0x10000,
                out@ == cfg_changes(old(self).cfg_shot@, page@, old(self).virt_irqs@, irq as int),
            decreases 1020 - irq,
        {
            let reg_idx = irq / 16;
            let shift: u64 = #[verifier::truncate] ((2 * (irq % 16)) as u64);
            proof {
                assert(0 <= irq as int / 16 < 64 && irq as int % 16 < 16) by (nonlinear_arith)
                    requires
                        32 <= irq < 1020,
                ;
                assert(irq as int / 16 == (irq / 16) as int && irq as int % 16 == (irq % 16) as int);
            }
            let oldb = ((self.cfg_shot[reg_idx] as u64) >> shift) & 3;
            let word = perform_mmio_read(page, 0xc00 + 4 * reg_idx, AccessWidth::Dword);
            let newb = (word >> shift) & 3;
            if oldb != newb && (self.virt_irqs.len() == 0 || contains_irq(&self.virt_irqs, irq)) {
                out.push(
                    (
                        irq,
                        if newb == 2 {
                            TriggerMode::Edge
                        } else {
                            TriggerMode::Level
                        },
                    ),
                );
            }
            irq = irq + 1;
        }
        let mut r: usize = 0;
        while r < 64
            invariant
                r <= 64,
                self.cfg_shot@.len() == 64,
                self.virt_irqs == old(self).virt_irqs,
                page@.len() == 0x10000,
                forall|j: int|
                    0 <= j < r ==> (#[trigger] self.cfg_shot@[j]) as u64 == icfgr_word(page@, j),
                forall|j: int| r <= j < 64 ==> self.cfg_shot@[j] == old(self).cfg_shot@[j],
            decreases 64 - r,
        {
            let word = perform_mmio_read(page, 0xc00 + 4 * r, AccessWidth::Dword);
            proof {
                crate::mem::lemma_le_read_bound(page@, 0xc00 + 4 * r, 4);
                assert((1u64 << 32) == 0x1_0000_0000) by (bit_vector);
            }
            self.cfg_shot[r] = #[verifier::truncate] (word as u32);
            r = r + 1;
        }
        out
    }
}

/// The block after every reset write except the per-page identification
/// words.
spec fn mid_state(orig: Seq<u8>, cpu_num: nat) -> Seq<u8> {
    Seq::new(
        orig.len(),
        |k: int|
            if k == 0x0 {
                0x60u8
            } else if 0x1 <= k <= 0x3 {
                0u8
            } else if k == 0x4 {
                (30u64 | (((cpu_num as u64) & 0x7) << 5)) as u8
            } else if 0x5 <= k <= 0x7 {
                0u8
            } else if 0x80 <= k < 0x100 {
                0xffu8
            } else if 0x180 <= k < 0x200 {
                0xffu8
            } else if 0x280 <= k < 0x300 {
                0xffu8
            } else if 0x380 <= k < 0x400 {
                0xffu8
            } else if 0x400 <= k < 0x7fc {
                0xa0u8
            } else if 0xd00 <= k < 0xd80 {
                0u8
            } else if 0xe00 <= k < 0xe80 {
                0u8
            } else {
                orig[k]
            },
    )
}

proof fn lemma_mid_state_byte(orig: Seq<u8>, cpu_num: nat, k: int, typer_val: u32)
    requires
        0 <= k < orig.len(),
        !(k % 0x1000 == 0xfe8 || 0xfe9 <= k % 0x1000 <= 0xfeb),
    ensures
        mid_state(orig, cpu_num)[k] == gicd_init_byte(orig, cpu_num, k),
{
}

/// Builds the `ICFGR` snapshot from the trigger mode the host interrupt
/// chip holds for each SPI: two bits per IRQ, SGIs and PPIs left zero.
fn build_cfg_shot(triggers: &Vec<TriggerMode>) -> (r: Vec<u32>)
    requires
        triggers@.len() >= 1020,
    ensures
        r@.len() == 64,
        forall|irq: int|
            0 <= irq < 1024 ==> #[trigger] cfg_field(r@, irq) == (if 32 <= irq < 1020 {
                cfg_bits_of(triggers@[irq])
            } else {
                0u32
            }),
{
    let mut shot: Vec<u32> = Vec::new();
    let mut i: usize = 0;
    while i < 64
        invariant
            i <= 64,
            shot@.len() == i,
            forall|j: int| 0 <= j < i ==> shot@[j] == 0u32,
        decreases 64 - i,
    {
        shot.push(0u32);
        i = i + 1;
    }
    proof {
        assert forall|irq: int| 0 <= irq < 1024 implies #[trigger] cfg_field(shot@, irq) == 0u32 by {
            assert(0 <= irq / 16 < 64 && 0 <= irq % 16 < 16) by (nonlinear_arith)
                requires
                    0 <= irq < 1024,
            ;
            bv_cfg_or(0, 0, 0, (2 * (irq % 16)) as u32);
        }
    }
    let mut irq: usize = 32;
    while irq < 1020
        invariant
            32 <= irq <= 1020,
            shot@.len() == 64,
            triggers@.len() >= 1020,
            forall|q: int|
                0 <= q < 1024 ==> #[trigger] cfg_field(shot@, q) == (if 32 <= q < irq {
                    cfg_bits_of(triggers@[q])
                } else {
                    0u32
                }),
        decreases 1020 - irq,
    {
        let reg_idx = irq / 16;
        let shift: u32 = #[verifier::truncate] ((2 * (irq % 16)) as u32);
        let cfg_bits: u32 = match triggers[irq] {
            TriggerMode::Level => 0,
            TriggerMode::Edge => 2,
        };
        proof {
            assert(0 <= irq / 16 < 64 && irq % 16 < 16) by (nonlinear_arith)
                requires
                    32 <= irq < 1020,
            ;
        }
        let ghost pre_shot = shot@;
        let ghost prev_word = shot@[reg_idx as int];
        let updated = shot[reg_idx] | (cfg_bits << shift);
        shot[reg_idx] = updated;
        proof {
            let irqi = irq as int;
            assert((2 * (irqi % 16)) % 2 == 0 && 2 * (irqi % 16) < 32) by (nonlinear_arith)
                requires
                    0 <= irqi % 16 < 16,
            ;
            assert(shift == (2 * (irqi % 16)) as u32);
            assert(cfg_bits == cfg_bits_of(triggers@[irqi]));
            assert forall|q: int| 0 <= q < 1024 implies #[trigger] cfg_field(shot@, q) == (if 32
                <= q < irqi + 1 {
                cfg_bits_of(triggers@[q])
            } else {
                0u32
            }) by {
                assert(0 <= q / 16 < 64 && 0 <= q % 16 < 16 && (2 * (q % 16)) % 2 == 0 && 2 * (q
                    % 16) < 32) by (nonlinear_arith)
                    requires
                        0 <= q < 1024,
                ;
                assert(cfg_field(pre_shot, q) == (if 32 <= q < irqi {
                    cfg_bits_of(triggers@[q])
                } else {
                    0u32
                }));
                if q / 16 == irqi / 16 {
                    bv_cfg_or(
                        prev_word,
                        cfg_bits_of(triggers@[irqi]),
                        (2 * (irqi % 16)) as u32,
                        (2 * (q % 16)) as u32,
                    );
                    assert(shot@[q / 16] == prev_word | (cfg_bits_of(triggers@[irqi]) << ((2 * (
                    irqi % 16)) as u32)));
                    if q != irqi {
                        assert(q % 16 != irqi % 16);
                    } else {
                        assert(cfg_field(pre_shot, irqi) == 0);
                    }
                } else {
                    assert(shot@[q / 16] == pre_shot[q / 16]);
                }
            }
        }
        irq = irq + 1;
    }
    shot
}

} // verus!
