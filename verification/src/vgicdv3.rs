//! The virtual GICv3 Distributor.
//!
//! Every guest access to the shared Distributor page is trapped here and
//! either passed through to the host Distributor, passed through after
//! masking to the IRQs this guest owns, or discarded.  The mask construction
//! is the heart of the ownership enforcement: in a bit-field register family
//! with `2^shift` bits per IRQ, an access may only observe or change the
//! fields of IRQs whose bit is set in the guest's `assigned_irqs` bitmap.

use vstd::prelude::*;

use crate::bitmap::{bitmap_bits, IrqBitmap};
use crate::host::{gic_read, gic_write, GicPage};
use crate::registers_v3::{
    DEFAULT_GICD_SIZE, GICD_ICFGR, GICD_ICFGR_END, GICD_IGROUPR, GICD_IGRPMODR, GICD_IGRPMODR_END,
    GICD_IPRIORITYR, GICD_IPRIORITYR_END, GICD_IROUTER, GICD_IROUTER_END, GICD_ISENABLER,
    GICD_ICACTIVER_END, GICD_ITARGETSR, GICD_ITARGETSR_END, GICD_TYPER, GICDV3_PIDR4,
    MAX_IRQ_V3,
};
use crate::AccessWidth;

verus! {

/// The width in bits of one IRQ's field in a register family with
/// `2^shift` bits per IRQ.
pub open spec fn irq_field_bits(shift: nat) -> nat {
    if shift == 0 {
        1
    } else if shift == 1 {
        2
    } else if shift == 2 {
        4
    } else {
        8
    }
}

/// All-ones mask of one IRQ's field.
pub open spec fn single_irq_mask(shift: nat) -> u64 {
    if shift == 0 {
        0x1
    } else if shift == 1 {
        0x3
    } else if shift == 2 {
        0xf
    } else {
        0xff
    }
}

/// The bits a masked access may touch: the OR of every owned IRQ's field,
/// over the `n` IRQs the access covers, the first of which is `first_irq`.
pub open spec fn access_mask(owned: Set<int>, first_irq: int, shift: nat, n: nat) -> u64
    decreases n,
{
    if n == 0 {
        0u64
    } else {
        access_mask(owned, first_irq, shift, (n - 1) as nat) | (if owned.contains(
            first_irq + (n - 1),
        ) {
            (single_irq_mask(shift) << ((((n - 1) * irq_field_bits(shift)) as u64))) as u64
        } else {
            0u64
        })
    }
}

proof fn bv_or_zero(a: u64)
    by (bit_vector)
    ensures
        a | 0u64 == a,
        0u64 | a == a,
        (0u64 >> a) & 1 == 0,
{
}

proof fn bv_or_bit(a: u64, b: u64, k: u64)
    by (bit_vector)
    requires
        k < 64,
    ensures
        ((a | b) >> k) & 1 == (((a >> k) & 1) | ((b >> k) & 1)),
        ((a >> k) & 1) == 0 || ((a >> k) & 1) == 1,
        (((a >> k) & 1) | ((b >> k) & 1)) == 0 <==> ((a >> k) & 1) == 0 && ((b >> k) & 1) == 0,
{
}

proof fn bv_field_window_bit(s: u64, w: u64, p: u64, k: u64)
    by (bit_vector)
    requires
        (w == 1 && s == 0x1) || (w == 2 && s == 0x3) || (w == 4 && s == 0xf) || (w == 8 && s
            == 0xff),
        p + w <= 64,
        k < 64,
    ensures
        ((s << p) >> k) & 1 == (if p <= k < p + w {
            1u64
        } else {
            0u64
        }),
{
}

/// Bit `k` of the access mask is set exactly when `k` lies in the field of a
/// covered, owned IRQ.
pub proof fn lemma_access_mask_bit(owned: Set<int>, first_irq: int, shift: nat, n: nat, k: u64)
    requires
        shift <= 3,
        n * irq_field_bits(shift) <= 64,
        k < 64,
    ensures
        ((access_mask(owned, first_irq, shift, n) >> k) & 1) == (if k < n * irq_field_bits(shift)
            && owned.contains(first_irq + (k as int) / (irq_field_bits(shift) as int)) {
            1u64
        } else {
            0u64
        }),
    decreases n,
{
    let w = irq_field_bits(shift);
    let m = access_mask(owned, first_irq, shift, n);
    if n == 0 {
        bv_or_zero(k);
    } else {
        let nm1 = (n - 1) as nat;
        let sub = access_mask(owned, first_irq, shift, nm1);
        let p = (nm1 * w) as u64;
        lemma_access_mask_bit(owned, first_irq, shift, nm1, k);
        let addend: u64 = if owned.contains(first_irq + (n - 1)) {
            (single_irq_mask(shift) << p) as u64
        } else {
            0u64
        };
        bv_or_bit(sub, addend, k);
        if owned.contains(first_irq + (n - 1)) {
            bv_field_window_bit(single_irq_mask(shift), w as u64, p, k);
        } else {
            bv_or_zero(k);
        }
        assert(p <= k < p + w ==> (k as int) / (w as int) == n - 1) by (nonlinear_arith)
            requires
                p == (n - 1) * w,
                1 <= w,
                p + w <= 64,
                k < 64,
        ;
        assert(k < p ==> (k as int) / (w as int) < n - 1) by (nonlinear_arith)
            requires
                p == (n - 1) * w,
                1 <= w,
        ;
        assert(k >= p + w ==> (k as int) / (w as int) > n - 1) by (nonlinear_arith)
            requires
                p == (n - 1) * w,
                1 <= w,
        ;
        assert(0 <= (k as int) / (w as int)) by (nonlinear_arith)
            requires
                1 <= w,
                0 <= k,
        ;
        assert(nm1 * w + w == n * w) by (nonlinear_arith)
            requires
                nm1 == n - 1,
        ;
        let bs = (sub >> k) & 1;
        let ba = (addend >> k) & 1;
        bv_or_zero(bs);
        bv_or_zero(ba);
        assert((m >> k) & 1 == bs | ba);
        if p <= k && k < p + w {
            assert(bs == 0);
            assert((k as int) / (w as int) == n - 1);
            assert((m >> k) & 1 == ba);
        } else if k < p {
            assert(ba == 0);
            assert((k as int) / (w as int) < n - 1);
            assert((m >> k) & 1 == bs);
        } else {
            assert(bs == 0);
            assert(ba == 0);
            assert((m >> k) & 1 == 0);
        }
    }
}

proof fn bv_window_from_bits(x: u64, s: u64, w: u64, p: u64)
    by (bit_vector)
    requires
        (w == 1 && s == 0x1) || (w == 2 && s == 0x3) || (w == 4 && s == 0xf) || (w == 8 && s
            == 0xff),
        p + w <= 64,
        (x >> p) & 1 == 0,
        w >= 2 ==> (x >> ((p + 1) as u64)) & 1 == 0,
        w >= 4 ==> (x >> ((p + 2) as u64)) & 1 == 0 && (x >> ((p + 3) as u64)) & 1 == 0,
        w >= 8 ==> (x >> ((p + 4) as u64)) & 1 == 0 && (x >> ((p + 5) as u64)) & 1 == 0 && (x >> ((
        p + 6) as u64)) & 1 == 0 && (x >> ((p + 7) as u64)) & 1 == 0,
    ensures
        (x >> p) & s == 0,
{
}

/// The field of a covered IRQ the guest does not own is all zero in the
/// access mask.
pub proof fn lemma_access_mask_unowned_window(
    owned: Set<int>,
    first_irq: int,
    shift: nat,
    n: nat,
    j: int,
)
    requires
        shift <= 3,
        n * irq_field_bits(shift) <= 64,
        0 <= j < n,
        !owned.contains(first_irq + j),
    ensures
        (access_mask(owned, first_irq, shift, n) >> ((j * irq_field_bits(shift)) as u64))
            & single_irq_mask(shift) == 0,
{
    let w = irq_field_bits(shift);
    let m = access_mask(owned, first_irq, shift, n);
    let p = (j * w) as u64;
    assert(0 <= j * w && j * w + w <= n * w) by (nonlinear_arith)
        requires
            0 <= j < n,
            1 <= w,
    ;
    assert forall|k: u64| p <= k < p + w implies (m >> k) & 1 == 0 by {
        lemma_access_mask_bit(owned, first_irq, shift, n, k);
        assert((k as int) / (w as int) == j) by (nonlinear_arith)
            requires
                p == j * w,
                1 <= w,
                p <= k < p + w,
        ;
    }
    bv_window_from_bits(m, single_irq_mask(shift), w as u64, p);
}

/// How the field of one IRQ moves through each masked operation: a masked
/// read or a masked poke value shows nothing of a field the mask excludes,
/// and a masked read-modify-write, set or clear leaves such a field of the
/// host register unchanged.
#[verifier::rlimit(100)]
proof fn bv_masked_window_ops(a: u64, v: u64, mask: u64, s: u64, p: u64)
    by (bit_vector)
    requires
        p < 64,
        (mask >> p) & s == 0,
    ensures
        ((a & mask) >> p) & s == 0,
        ((v & mask) >> p) & s == 0,
        (((a & !mask) | (v & mask)) >> p) & s == (a >> p) & s,
        ((a | (v & mask)) >> p) & s == (a >> p) & s,
        ((a & !(v & mask)) >> p) & s == (a >> p) & s,
{
}

/// Number of IRQ fields one byte of a family with `2^shift` bits per IRQ
/// holds.
pub open spec fn irqs_per_byte(shift: nat) -> nat {
    if shift == 0 {
        8
    } else if shift == 1 {
        4
    } else if shift == 2 {
        2
    } else {
        1
    }
}

/// `GICD_TYPER` as shown to the guest: the security-extensions bit cleared
/// and the CPU-count field rewritten to the guest's vCPU count.
pub open spec fn rewrite_typer(v: u64, cpu_num: nat) -> u64 {
    (v & !(1u64 << 10) & !(0x7u64 << 5)) | ((((cpu_num - 1) as u64) & 0x7) << 5)
}

/// The virtual Distributor of one guest.
pub struct VGicD {
    /// The base of the Distributor window in the guest's physical address
    /// space.
    pub addr: usize,
    /// The size of the window in bytes.
    pub size: usize,
    /// The physical IRQs this guest owns, one bit per IRQ id.
    pub assigned_irqs: IrqBitmap,
    /// The number of vCPUs of the guest, shown in the rewritten `GICD_TYPER`.
    pub cpu_num: usize,
    /// The host-physical base of the real Distributor page.
    pub host_gicd_addr: usize,
}

impl VGicD {
    /// The set of IRQ ids this guest owns.
    pub open spec fn owned(self) -> Set<int> {
        bitmap_bits(self.assigned_irqs)
    }

    /// Well-formedness: every owned id is a valid IRQ id and the guest has
    /// at least one vCPU.
    pub open spec fn wf(self) -> bool {
        &&& (forall|i: int| self.owned().contains(i) ==> 0 <= i < 1024)
        &&& 1 <= self.cpu_num
    }

    /// The value a guest read of `w` bytes at Distributor offset `reg`
    /// returns, given host Distributor state `mem`.  An access is classified
    /// by the offset of its first byte, as the trap handler sees it.
    pub open spec fn read_val(self, mem: Seq<u8>, reg: int, w: nat) -> u64 {
        let owned = self.owned();
        if 0x6000 <= reg < 0x8000 {
            let irq = (reg - 0x6000) / 8;
            if owned.contains(irq) && 32 <= irq < 1020 {
                gic_read(mem, reg, w)
            } else {
                0u64
            }
        } else if 0x800 <= reg < 0xc00 {
            let irq = reg - 0x800;
            if owned.contains(irq) && 32 <= irq < 1020 {
                gic_read(mem, reg, w)
            } else {
                0u64
            }
        } else if 0x80 <= reg < 0x400 || 0xd00 <= reg < 0xd80 {
            gic_read(mem, reg, w) & access_mask(owned, (reg % 0x80) * 8, 0, w * 8)
        } else if 0xc00 <= reg < 0xd00 {
            gic_read(mem, reg, w) & access_mask(owned, (reg % 0x100) * 4, 1, w * 4)
        } else if 0x400 <= reg < 0x800 {
            gic_read(mem, reg, w) & access_mask(owned, reg % 0x400, 3, w)
        } else if reg == 0x4 {
            rewrite_typer(gic_read(mem, reg, w), self.cpu_num as nat)
        } else {
            gic_read(mem, reg, w)
        }
    }

    /// The host Distributor state after a guest write of `val` (`w` bytes) at
    /// Distributor offset `reg`, given host state `mem`.
    pub open spec fn write_mem(self, mem: Seq<u8>, reg: int, w: nat, val: u64) -> Seq<u8> {
        let owned = self.owned();
        if 0x6000 <= reg < 0x8000 {
            let irq = (reg - 0x6000) / 8;
            if owned.contains(irq) && 32 <= irq < 1020 {
                gic_write(mem, reg, w, val)
            } else {
                mem
            }
        } else if 0x800 <= reg < 0xc00 {
            let irq = reg - 0x800;
            if owned.contains(irq) && 32 <= irq < 1020 {
                gic_write(mem, reg, w, val)
            } else {
                mem
            }
        } else if 0x100 <= reg < 0x400 {
            gic_write(mem, reg, w, val & access_mask(owned, (reg % 0x80) * 8, 0, w * 8))
        } else if 0x80 <= reg < 0x100 || 0xd00 <= reg < 0xd80 {
            let mask = access_mask(owned, (reg % 0x80) * 8, 0, w * 8);
            gic_write(mem, reg, w, (gic_read(mem, reg, w) & !mask) | (val & mask))
        } else if 0xc00 <= reg < 0xd00 {
            let mask = access_mask(owned, (reg % 0x100) * 4, 1, w * 4);
            gic_write(mem, reg, w, (gic_read(mem, reg, w) & !mask) | (val & mask))
        } else if 0x400 <= reg < 0x800 {
            let mask = access_mask(owned, reg % 0x400, 3, w);
            gic_write(mem, reg, w, (gic_read(mem, reg, w) & !mask) | (val & mask))
        } else if reg == 0x0 || reg == 0x4 || reg == 0x8 || reg == 0xc || 0xffd0 <= reg
            < 0x10000 {
            mem
        } else {
            gic_write(mem, reg, w, val)
        }
    }

    /// A fresh Distributor for a guest of `cpu_num` vCPUs, owning no IRQs.
    pub fn new(addr: usize, size: Option<usize>, cpu_num: usize, host_gicd_addr: usize) -> (r:
        VGicD)
        requires
            1 <= cpu_num,
        ensures
            r.wf(),
            r.addr == addr,
            r.size == (match size {
                Some(s) => s,
                None => 0x10000,
            }),
            r.owned() == Set::<int>::empty(),
            r.cpu_num == cpu_num,
            r.host_gicd_addr == host_gicd_addr,
    {
        let size = match size {
            Some(s) => s,
            None => DEFAULT_GICD_SIZE,
        };
        VGicD { addr, size, assigned_irqs: IrqBitmap::new(), cpu_num, host_gicd_addr }
    }

    /// Whether this guest owns IRQ `irq`.  Ids past the Distributor's range
    /// are owned by nobody.
    pub fn is_irq_assigned(&self, irq: u32) -> (r: bool)
        requires
            self.wf(),
        ensures
            r == self.owned().contains(irq as int),
    {
        if irq < MAX_IRQ_V3 as u32 {
            self.assigned_irqs.get(irq as usize)
        } else {
            false
        }
    }

    /// Whether `irq` is a Software-Generated Interrupt.
    pub fn is_irq_sgi(&self, irq: u32) -> (r: bool)
        ensures
            r == (irq < 16),
    {
        irq < 16
    }

    /// Whether `irq` is a Shared Peripheral Interrupt: above the SGI and
    /// PPI ranges and below the special ids, so that routing and targeting
    /// registers exist for it.
    pub fn is_irq_spi(&self, irq: u32) -> (r: bool)
        ensures
            r == (32 <= irq && irq < 1020),
    {
        irq >= 32 && irq < 1020
    }

    /// Marks `irq` as owned by this guest and routes the physical IRQ: the
    /// host `GICD_ITARGETSR` byte gets the target CPU's bit and the host
    /// `GICD_IROUTER` word the target affinity.
    pub fn assign_irq(
        &mut self,
        irq: u32,
        cpu_phys_id: usize,
        target_cpu_affinity: (u8, u8, u8, u8),
        host: &mut GicPage,
    )
        requires
            old(self).wf(),
            old(host)@.len() == 0x10000,
            irq < 1024,
            cpu_phys_id < 8,
        ensures
            final(self).wf(),
            final(self).owned() == old(self).owned().insert(irq as int),
            final(self).addr == old(self).addr,
            final(self).size == old(self).size,
            final(self).cpu_num == old(self).cpu_num,
            final(self).host_gicd_addr == old(self).host_gicd_addr,
            final(host)@ == gic_write(
                gic_write(old(host)@, 0x800 + irq as int, 1, (1u64 << (cpu_phys_id as u64))),
                0x6000 + (irq as int) * 8,
                8,
                ((target_cpu_affinity.0 as u64) << 32) | (1u64 << 31) | ((target_cpu_affinity.1
                    as u64) << 16) | ((target_cpu_affinity.2 as u64) << 8) | (target_cpu_affinity.3
                    as u64),
            ),
    {
        self.assigned_irqs.set(irq as usize, true);
        proof {
            assert forall|i: int| self.owned().contains(i) implies 0 <= i < 1024 by {
                assert(self.owned() == old(self).owned().insert(irq as int));
            }
        }
        host.write(GICD_ITARGETSR + irq as usize, AccessWidth::Byte, 1u64 << (cpu_phys_id as u64));
        host.write(
            GICD_IROUTER + (irq as usize) * 8,
            AccessWidth::Qword,
            ((target_cpu_affinity.0 as u64) << 32) | (1u64 << 31) | ((target_cpu_affinity.1 as u64)
                << 16) | ((target_cpu_affinity.2 as u64) << 8) | (target_cpu_affinity.3 as u64),
        );
    }

    /// The mask of bits an access at byte `reg_offset` into a bit-field
    /// family may touch, given the IRQs this guest owns.
    pub fn irq_access_mask(
        &self,
        reg_offset: usize,
        bits_per_irq_shift: usize,
        width: AccessWidth,
    ) -> (mask: u64)
        requires
            self.wf(),
            bits_per_irq_shift <= 3,
            reg_offset <= 0x400,
        ensures
            mask == access_mask(
                self.owned(),
                reg_offset * irqs_per_byte(bits_per_irq_shift as nat),
                bits_per_irq_shift as nat,
                (width.size() * irqs_per_byte(bits_per_irq_shift as nat)) as nat,
            ),
    {
        let ghost shift = bits_per_irq_shift as nat;
        let ipb: usize = if bits_per_irq_shift == 0 {
            8
        } else if bits_per_irq_shift == 1 {
            4
        } else if bits_per_irq_shift == 2 {
            2
        } else {
            1
        };
        let wbits: usize = if bits_per_irq_shift == 0 {
            1
        } else if bits_per_irq_shift == 1 {
            2
        } else if bits_per_irq_shift == 2 {
            4
        } else {
            8
        };
        let single: u64 = if bits_per_irq_shift == 0 {
            0x1
        } else if bits_per_irq_shift == 1 {
            0x3
        } else if bits_per_irq_shift == 2 {
            0xf
        } else {
            0xff
        };
        let n: usize = width.size() * ipb;
        assert(reg_offset * ipb <= 0x2000 && width.size() * ipb <= 64) by (nonlinear_arith)
            requires
                reg_offset <= 0x400,
                ipb <= 8,
                width.size() <= 8,
        ;
        let first_irq: usize = reg_offset * ipb;
        let mut mask: u64 = 0;
        let mut i: usize = 0;
        while i < n
            invariant
                self.wf(),
                i <= n,
                ipb == irqs_per_byte(shift),
                wbits == irq_field_bits(shift),
                single == single_irq_mask(shift),
                n == width.size() * ipb,
                n * wbits <= 64,
                first_irq == reg_offset * ipb,
                first_irq <= 0x2000,
                mask == access_mask(self.owned(), first_irq as int, shift, i as nat),
            decreases n - i,
        {
            assert(i * wbits + wbits <= n * wbits) by (nonlinear_arith)
                requires
                    i < n,
                    1 <= wbits,
            ;
            if self.is_irq_assigned((first_irq + i) as u32) {
                mask = mask | (single << ((i * wbits) as u64));
            } else {
                proof {
                    bv_or_zero(mask);
                }
            }
            i = i + 1;
        }
        mask
    }

    /// A masked read of a bit-field family register: the host value with
    /// every field of an IRQ the guest does not own forced to zero.
    pub fn irq_masked_read(
        &self,
        host: &GicPage,
        offset: usize,
        reg_offset: usize,
        bits_per_irq_shift: usize,
        width: AccessWidth,
        _is_poke: bool,
    ) -> (r: Result<u64, crate::VgicError>)
        requires
            self.wf(),
            bits_per_irq_shift <= 3,
            reg_offset <= 0x400,
            offset + width.size() <= host@.len(),
        ensures
            r == Ok::<u64, crate::VgicError>(
                gic_read(host@, offset as int, width.size() as nat) & access_mask(
                    self.owned(),
                    reg_offset * irqs_per_byte(bits_per_irq_shift as nat),
                    bits_per_irq_shift as nat,
                    (width.size() * irqs_per_byte(bits_per_irq_shift as nat)) as nat,
                ),
            ),
    {
        let mask = self.irq_access_mask(reg_offset, bits_per_irq_shift, width);
        Ok(host.read(offset, width) & mask)
    }

    /// A masked write of a bit-field family register.  A poke family takes
    /// the masked value directly; the others are read-modify-written so that
    /// only the owned fields change.
    pub fn irq_masked_write(
        &self,
        host: &mut GicPage,
        offset: usize,
        reg_offset: usize,
        bits_per_irq_shift: usize,
        width: AccessWidth,
        is_poke: bool,
        val: u64,
    ) -> (r: Result<(), crate::VgicError>)
        requires
            self.wf(),
            bits_per_irq_shift <= 3,
            reg_offset <= 0x400,
            offset + width.size() <= old(host)@.len(),
        ensures
            r == Ok::<(), crate::VgicError>(()),
            ({
                let mask = access_mask(
                    self.owned(),
                    reg_offset * irqs_per_byte(bits_per_irq_shift as nat),
                    bits_per_irq_shift as nat,
                    (width.size() * irqs_per_byte(bits_per_irq_shift as nat)) as nat,
                );
                let w = width.size() as nat;
                if is_poke {
                    final(host)@ == gic_write(old(host)@, offset as int, w, val & mask)
                } else {
                    final(host)@ == gic_write(
                        old(host)@,
                        offset as int,
                        w,
                        (gic_read(old(host)@, offset as int, w) & !mask) | (val & mask),
                    )
                }
            }),
    {
        let mask = self.irq_access_mask(reg_offset, bits_per_irq_shift, width);
        if is_poke {
            host.write(offset, width, val & mask);
        } else {
            let current_value = host.read(offset, width);
            let new_value = (current_value & !mask) | (val & mask);
            host.write(offset, width, new_value);
        }
        Ok(())
    }

    /// Serves a trapped guest read anywhere in the Distributor window.
    pub fn handle_read(&self, host: &GicPage, addr: usize, width: AccessWidth) -> (r: Result<
        u64,
        crate::VgicError,
    >)
        requires
            self.wf(),
            host@.len() == 0x10000,
            self.addr <= addr,
            addr - self.addr + width.size() <= 0x10000,
        ensures
            r == Ok::<u64, crate::VgicError>(
                self.read_val(host@, addr - self.addr, width.size() as nat),
            ),
    {
        let reg = addr - self.addr;
        let r = if GICD_IROUTER <= reg && reg < GICD_IROUTER_END {
            let irq = ((reg - GICD_IROUTER) / 8) as u32;
            if self.is_irq_assigned(irq) && self.is_irq_spi(irq) {
                Ok(host.read(reg, width))
            } else {
                Ok(0)
            }
        } else if GICD_ITARGETSR <= reg && reg < GICD_ITARGETSR_END {
            let irq = (reg - GICD_ITARGETSR) as u32;
            if self.is_irq_assigned(irq) && self.is_irq_spi(irq) {
                Ok(host.read(reg, width))
            } else {
                Ok(0)
            }
        } else if (GICD_IGROUPR <= reg && reg < GICD_ICACTIVER_END) || (GICD_IGRPMODR <= reg && reg
            < GICD_IGRPMODR_END) {
            self.irq_masked_read(host, reg, reg % 0x80, 0, width, true)
        } else if GICD_ICFGR <= reg && reg < GICD_ICFGR_END {
            self.irq_masked_read(host, reg, reg % 0x100, 1, width, false)
        } else if GICD_IPRIORITYR <= reg && reg < GICD_IPRIORITYR_END {
            self.irq_masked_read(host, reg, reg % 0x400, 3, width, false)
        } else if reg == GICD_TYPER {
            let v = host.read(reg, width);
            Ok((v & !(1u64 << 10) & !(0x7u64 << 5)) | ((((self.cpu_num - 1) as u64) & 0x7) << 5))
        } else {
            Ok(host.read(reg, width))
        };
        proof {
            if 0x400 <= reg && reg < 0x800 {
                assert((reg % 0x400) * irqs_per_byte(3) == reg % 0x400) by (nonlinear_arith)
                    requires
                        irqs_per_byte(3) == 1,
                ;
                assert(((width.size() * irqs_per_byte(3)) as nat) == width.size() as nat)
                    by (nonlinear_arith)
                    requires
                        irqs_per_byte(3) == 1,
                ;
            }
            assert(r == Ok::<u64, crate::VgicError>(
                self.read_val(host@, reg as int, width.size() as nat),
            ));
        }
        r
    }

    /// Serves a trapped guest write anywhere in the Distributor window.
    pub fn handle_write(
        &self,
        host: &mut GicPage,
        addr: usize,
        width: AccessWidth,
        val: u64,
    ) -> (r: Result<(), crate::VgicError>)
        requires
            self.wf(),
            old(host)@.len() == 0x10000,
            self.addr <= addr,
            addr - self.addr + width.size() <= 0x10000,
        ensures
            r == Ok::<(), crate::VgicError>(()),
            final(host)@ == self.write_mem(
                old(host)@,
                addr - self.addr,
                width.size() as nat,
                val,
            ),
    {
        let reg = addr - self.addr;
        let r = if GICD_IROUTER <= reg && reg < GICD_IROUTER_END {
            let irq = ((reg - GICD_IROUTER) / 8) as u32;
            if self.is_irq_assigned(irq) && self.is_irq_spi(irq) {
                host.write(reg, width, val);
            }
            Ok(())
        } else if GICD_ITARGETSR <= reg && reg < GICD_ITARGETSR_END {
            let irq = (reg - GICD_ITARGETSR) as u32;
            if self.is_irq_assigned(irq) && self.is_irq_spi(irq) {
                host.write(reg, width, val);
            }
            Ok(())
        } else if GICD_ISENABLER <= reg && reg < GICD_ICACTIVER_END {
            self.irq_masked_write(host, reg, reg % 0x80, 0, width, true, val)
        } else if (GICD_IGROUPR <= reg && reg < 0x100) || (GICD_IGRPMODR <= reg && reg
            < GICD_IGRPMODR_END) {
            self.irq_masked_write(host, reg, reg % 0x80, 0, width, false, val)
        } else if GICD_ICFGR <= reg && reg < GICD_ICFGR_END {
            self.irq_masked_write(host, reg, reg % 0x100, 1, width, false, val)
        } else if GICD_IPRIORITYR <= reg && reg < GICD_IPRIORITYR_END {
            self.irq_masked_write(host, reg, reg % 0x400, 3, width, false, val)
        } else if reg == 0x0 || reg == 0x4 || reg == 0x8 || reg == 0xc || (GICDV3_PIDR4 <= reg
            && reg < 0x10000) {
            Ok(())
        } else {
            host.write(reg, width, val);
            Ok(())
        };
        proof {
            if 0x400 <= reg && reg < 0x800 {
                assert((reg % 0x400) * irqs_per_byte(3) == reg % 0x400) by (nonlinear_arith)
                    requires
                        irqs_per_byte(3) == 1,
                ;
                assert(((width.size() * irqs_per_byte(3)) as nat) == width.size() as nat)
                    by (nonlinear_arith)
                    requires
                        irqs_per_byte(3) == 1,
                ;
            }
            assert(host@ =~= self.write_mem(old(host)@, reg as int, width.size() as nat, val));
        }
        r
    }
}

/// Whether `reg` lies in one of the Distributor's bit-field register
/// families, whose accesses are masked per IRQ.
pub open spec fn in_bit_field_family(reg: int) -> bool {
    (0x80 <= reg < 0x800) || (0xc00 <= reg < 0xd80)
}

/// The bits-per-IRQ shift of the family `reg` lies in.
pub open spec fn family_shift(reg: int) -> nat {
    if 0xc00 <= reg < 0xd00 {
        1
    } else if 0x400 <= reg < 0x800 {
        3
    } else {
        0
    }
}

/// The first IRQ an access at `reg` covers within its family.
pub open spec fn family_first_irq(reg: int) -> int {
    if 0xc00 <= reg < 0xd00 {
        (reg % 0x100) * 4
    } else if 0x400 <= reg < 0x800 {
        reg % 0x400
    } else {
        (reg % 0x80) * 8
    }
}

proof fn lemma_family_arith(reg: int, w: nat, j: int)
    requires
        in_bit_field_family(reg),
        1 <= w <= 8,
        0 <= j < w * irqs_per_byte(family_shift(reg)),
    ensures
        (w * irqs_per_byte(family_shift(reg))) * irq_field_bits(family_shift(reg)) == w * 8,
        0 <= j * irq_field_bits(family_shift(reg)),
        j * irq_field_bits(family_shift(reg)) + irq_field_bits(family_shift(reg)) <= w * 8,
{
    let shift = family_shift(reg);
    let fb = irq_field_bits(shift);
    let n = w * irqs_per_byte(shift);
    assert(irqs_per_byte(shift) * fb == 8);
    assert(n * fb == w * 8) by (nonlinear_arith)
        requires
            n == w * irqs_per_byte(shift),
            irqs_per_byte(shift) * fb == 8,
    ;
    assert(0 <= j * fb && j * fb + fb <= n * fb) by (nonlinear_arith)
        requires
            0 <= j < n,
            1 <= fb,
    ;
}

/// Ownership enforcement on reads: in a bit-field register family, the
/// field of a covered IRQ the guest does not own reads as zero.
pub proof fn lemma_read_hides_unowned(d: VGicD, mem: Seq<u8>, reg: int, w: nat, j: int)
    requires
        d.wf(),
        in_bit_field_family(reg),
        1 <= w <= 8,
        0 <= j < w * irqs_per_byte(family_shift(reg)),
        !d.owned().contains(family_first_irq(reg) + j),
    ensures
        (d.read_val(mem, reg, w) >> ((j * irq_field_bits(family_shift(reg))) as u64))
            & single_irq_mask(family_shift(reg)) == 0,
{
    let shift = family_shift(reg);
    let first = family_first_irq(reg);
    let fb = irq_field_bits(shift);
    let n = (w * irqs_per_byte(shift)) as nat;
    let mask = access_mask(d.owned(), first, shift, n);
    let p = (j * fb) as u64;
    lemma_family_arith(reg, w, j);
    lemma_access_mask_unowned_window(d.owned(), first, shift, n, j);
    bv_masked_window_ops(gic_read(mem, reg, w), 0, mask, single_irq_mask(shift), p);
    assert(d.read_val(mem, reg, w) == gic_read(mem, reg, w) & mask);
}

proof fn bv_trunc_window(y: u64, s: u64, wb: u64, p: u64, t: u64)
    by (bit_vector)
    requires
        (wb == 1 && s == 0x1) || (wb == 2 && s == 0x3) || (wb == 4 && s == 0xf) || (wb == 8 && s
            == 0xff),
        p + wb <= t,
        t <= 56,
    ensures
        ((y & (((1u64 << t) - 1) as u64)) >> p) & s == (y >> p) & s,
{
}

/// Ownership enforcement on writes: in a bit-field register family, a guest
/// write leaves the host field of every IRQ the guest does not own exactly
/// as it was.
pub proof fn lemma_write_preserves_unowned(
    d: VGicD,
    mem: Seq<u8>,
    reg: int,
    w: nat,
    val: u64,
    j: int,
)
    requires
        d.wf(),
        in_bit_field_family(reg),
        1 <= w <= 8,
        0 <= reg,
        reg + w <= mem.len(),
        0 <= j < w * irqs_per_byte(family_shift(reg)),
        !d.owned().contains(family_first_irq(reg) + j),
    ensures
        (gic_read(d.write_mem(mem, reg, w, val), reg, w) >> ((j * irq_field_bits(
            family_shift(reg),
        )) as u64)) & single_irq_mask(family_shift(reg)) == (gic_read(mem, reg, w) >> ((j
            * irq_field_bits(family_shift(reg))) as u64)) & single_irq_mask(family_shift(reg)),
{
    let shift = family_shift(reg);
    let first = family_first_irq(reg);
    let fb = irq_field_bits(shift);
    let sm = single_irq_mask(shift);
    let n = (w * irqs_per_byte(shift)) as nat;
    let mask = access_mask(d.owned(), first, shift, n);
    let p = (j * fb) as u64;
    let new = d.write_mem(mem, reg, w, val);
    lemma_family_arith(reg, w, j);
    lemma_access_mask_unowned_window(d.owned(), first, shift, n, j);
    let is_set = 0x100 <= reg < 0x180 || 0x200 <= reg < 0x280 || 0x300 <= reg < 0x380;
    let is_clear = 0x180 <= reg < 0x200 || 0x280 <= reg < 0x300 || 0x380 <= reg < 0x400;
    let back = if is_clear {
        reg - 0x80
    } else {
        reg
    };
    let a = crate::mem::le_read(mem, back, w);
    let y = if is_set {
        a | (val & mask)
    } else if is_clear {
        a & !(val & mask)
    } else {
        (a & !mask) | (val & mask)
    };
    assert(new == crate::mem::le_write(mem, back, w, y));
    crate::mem::lemma_le_read_of_le_write(mem, back, w, y);
    assert(gic_read(new, reg, w) == crate::mem::trunc(y, w));
    bv_masked_window_ops(a, val, mask, sm, p);
    assert((y >> p) & sm == (a >> p) & sm);
    if w < 8 {
        bv_trunc_window(y, sm, fb as u64, p, (8 * w) as u64);
        assert(crate::mem::trunc(y, w) == y & (((1u64 << ((8 * w) as u64)) - 1) as u64));
    }
    assert((crate::mem::trunc(y, w) >> p) & sm == (a >> p) & sm);
}

proof fn bv_trunc_or_byte(y: u64, x: u64, k: u64, t: u64)
    by (bit_vector)
    requires
        t <= 56,
        k + 8 <= t,
    ensures
        ((((y & (((1u64 << t) - 1) as u64)) | x) >> k) as u8) == (((y | x) >> k) as u8),
        ((((y & (((1u64 << t) - 1) as u64)) & !x) >> k) as u8) == (((y & !x) >> k) as u8),
{
}

/// Writing the same value twice to a set-style (write-1-to-set) register of
/// the Distributor leaves the same host state as writing it once.
pub proof fn lemma_poke_write_idempotent(d: VGicD, mem: Seq<u8>, reg: int, w: nat, val: u64)
    requires
        d.wf(),
        0x100 <= reg < 0x180 || 0x200 <= reg < 0x280 || 0x300 <= reg < 0x380 || 0x180 <= reg
            < 0x200 || 0x280 <= reg < 0x300 || 0x380 <= reg < 0x400,
        1 <= w <= 8,
        reg + w <= mem.len(),
    ensures
        d.write_mem(d.write_mem(mem, reg, w, val), reg, w, val) == d.write_mem(mem, reg, w, val),
{
    let shift = family_shift(reg);
    let first = family_first_irq(reg);
    let n = (w * irqs_per_byte(shift)) as nat;
    let mask = access_mask(d.owned(), first, shift, n);
    let x = val & mask;
    let is_clear = 0x180 <= reg < 0x200 || 0x280 <= reg < 0x300 || 0x380 <= reg < 0x400;
    let back = if is_clear {
        reg - 0x80
    } else {
        reg
    };
    let a = crate::mem::le_read(mem, back, w);
    let y = if is_clear {
        a & !x
    } else {
        a | x
    };
    let m1 = d.write_mem(mem, reg, w, val);
    assert(m1 == crate::mem::le_write(mem, back, w, y));
    crate::mem::lemma_le_read_of_le_write(mem, back, w, y);
    let a1 = crate::mem::le_read(m1, back, w);
    assert(a1 == crate::mem::trunc(y, w));
    let y1 = if is_clear {
        a1 & !x
    } else {
        a1 | x
    };
    let m2 = d.write_mem(m1, reg, w, val);
    assert(m2 == crate::mem::le_write(m1, back, w, y1));
    crate::mem::lemma_le_write_overwrite(mem, back, w, y, y1);
    assert(m2 == crate::mem::le_write(mem, back, w, y1));
    assert forall|jj: int| 0 <= jj < w implies #[verifier::truncate] ((y1 >> (#[trigger] ((8 * jj)
        as u64))) as u8) == #[verifier::truncate] ((y >> ((8 * jj) as u64)) as u8) by {
        let k = (8 * jj) as u64;
        if w < 8 {
            bv_trunc_or_byte(y, x, k, (8 * w) as u64);
            assert(a1 == y & (((1u64 << ((8 * w) as u64)) - 1) as u64));
        } else {
            assert(a1 == y);
            assert(((y | x) | x) >> k == (y | x) >> k && ((y & !x) & !x) >> k == (y & !x) >> k)
                by (bit_vector);
        }
        if is_clear {
            assert(((y1 >> k) as u8) == ((y & !x) >> k) as u8);
            assert(((y >> k) as u8) == (((a & !x)) >> k) as u8);
            assert((((y & !x) >> k) as u8) == ((y >> k) as u8)) by (bit_vector)
                requires
                    y == a & !x,
            ;
        } else {
            assert((((y | x) >> k) as u8) == ((y >> k) as u8)) by (bit_vector)
                requires
                    y == a | x,
            ;
        }
    }
    crate::mem::lemma_le_write_bytes_eq(mem, back, w, y1, y);
}

proof fn bv_mask32(m: u64)
    by (bit_vector)
    ensures
        (0xffffffffu64 & m) <= 0xffffffff,
{
}

proof fn bv_restore32(a: u64, x: u64)
    by (bit_vector)
    requires
        a < 0x1_0000_0000,
        x <= 0xffffffff,
    ensures
        ((((a & !x) & 0xffffffffu64) | x) & 0xffffffffu64) == a | x,
        a & x == x ==> (a | x) == a,
{
}

/// Disabling every owned IRQ of an enable word and then re-enabling them
/// (a full-word `ICENABLER` write followed by a full-word `ISENABLER`
/// write) sets exactly the owned fields; if the owned IRQs were all enabled
/// before, the word is restored bit for bit.  IRQs the guest does not own
/// are untouched throughout, which `lemma_write_preserves_unowned` states
/// for each write.
pub proof fn lemma_disable_enable_owned(d: VGicD, mem: Seq<u8>, reg_set: int)
    requires
        d.wf(),
        0x100 <= reg_set,
        reg_set + 4 <= 0x180,
        reg_set + 4 <= mem.len(),
    ensures
        ({
            let mask = access_mask(d.owned(), (reg_set % 0x80) * 8, 0, 32);
            let x = 0xffffffffu64 & mask;
            let mc = d.write_mem(mem, reg_set + 0x80, 4, 0xffffffff);
            let ms = d.write_mem(mc, reg_set, 4, 0xffffffff);
            let e0 = gic_read(mem, reg_set, 4);
            &&& gic_read(ms, reg_set, 4) == e0 | x
            &&& (e0 & x == x ==> gic_read(ms, reg_set, 4) == e0)
        }),
{
    let mask = access_mask(d.owned(), (reg_set % 0x80) * 8, 0, 32);
    let x = 0xffffffffu64 & mask;
    let reg_clear = reg_set + 0x80;
    let e0 = crate::mem::le_read(mem, reg_set, 4);
    assert((reg_clear % 0x80) * 8 == (reg_set % 0x80) * 8);
    let mc = d.write_mem(mem, reg_clear, 4, 0xffffffff);
    assert(mc == crate::mem::le_write(mem, reg_set, 4, e0 & !x));
    crate::mem::lemma_le_read_of_le_write(mem, reg_set, 4, e0 & !x);
    let e1 = crate::mem::le_read(mc, reg_set, 4);
    assert(e1 == (e0 & !x) & 0xffffffffu64) by {
        assert(crate::mem::trunc(e0 & !x, 4) == (e0 & !x) & (((1u64 << 32) - 1) as u64));
        assert((((1u64 << 32) - 1) as u64) == 0xffffffffu64) by (bit_vector);
    }
    let ms = d.write_mem(mc, reg_set, 4, 0xffffffff);
    assert(ms == crate::mem::le_write(mc, reg_set, 4, e1 | x));
    crate::mem::lemma_le_read_of_le_write(mc, reg_set, 4, e1 | x);
    let e2 = crate::mem::le_read(ms, reg_set, 4);
    assert(e2 == (e1 | x) & 0xffffffffu64) by {
        assert(crate::mem::trunc(e1 | x, 4) == (e1 | x) & (((1u64 << 32) - 1) as u64));
        assert((((1u64 << 32) - 1) as u64) == 0xffffffffu64) by (bit_vector);
    }
    crate::mem::lemma_le_read_bound(mem, reg_set, 4);
    assert(e0 < 0x1_0000_0000) by {
        assert((1u64 << ((8 * 4) as u64)) == 0x1_0000_0000) by (bit_vector);
    }
    bv_mask32(mask);
    bv_restore32(e0, x);
}

/// At most one guest owns an IRQ.  `sets` holds every guest's owned set; if
/// the sets are pairwise disjoint and an IRQ nobody owns is assigned to one
/// guest — which is exactly what `assign_irq` does to that guest's set —
/// the sets stay pairwise disjoint.
pub proof fn lemma_assign_irq_keeps_owners_unique(sets: Seq<Set<int>>, g: int, irq: int)
    requires
        0 <= g < sets.len(),
        forall|i: int, j: int|
            0 <= i < sets.len() && 0 <= j < sets.len() && i != j ==> sets[i].disjoint(sets[j]),
        forall|i: int| 0 <= i < sets.len() ==> !sets[i].contains(irq),
    ensures
        forall|i: int, j: int|
            0 <= i < sets.len() && 0 <= j < sets.len() && i != j ==> #[trigger] sets.update(
                g,
                sets[g].insert(irq),
            )[i].disjoint(sets.update(g, sets[g].insert(irq))[j]),
{
    let upd = sets.update(g, sets[g].insert(irq));
    assert forall|i: int, j: int|
        0 <= i < sets.len() && 0 <= j < sets.len() && i != j implies #[trigger] upd[i].disjoint(
        upd[j],
    ) by {
        assert forall|a: int| upd[i].contains(a) implies !upd[j].contains(a) by {
            assert(sets[i].disjoint(sets[j]));
            if i == g {
                assert(upd[i] == sets[g].insert(irq));
                assert(upd[j] == sets[j]);
            } else if j == g {
                assert(upd[j] == sets[g].insert(irq));
                assert(upd[i] == sets[i]);
                assert(!sets[i].contains(irq));
            }
        }
    }
}

} // verus!
