//! The virtual GICv3 Redistributor and the shared LPI property table.
//!
//! Each vCPU gets one Redistributor window.  Most registers pass through to
//! that vCPU's physical Redistributor frame; `GICR_TYPER` is decorated with
//! the Last bit on the guest's highest-numbered vCPU, `GICR_PROPBASER` is a
//! purely virtual shadow word, `GICR_INVLPIR` writes become LPI-enable
//! requests against the host-wide property table, and `GICR_ICENABLER`
//! writes are masked so a guest can never disable the hypervisor's
//! maintenance interrupt.

use vstd::prelude::*;

use crate::host::{gic_read, gic_write, GicPage};
use crate::mem::le_write;
use crate::registers_v3::{
    DEFAULT_SIZE_PER_GICR, GICR_ICENABLER, GICR_INVLPIR, GICR_PROPBASER, GICR_SYNCR, GICR_TYPER,
    GICR_TYPER_LAST, MAINTENACE_INTERRUPT,
};
use crate::AccessWidth;

verus! {

/// The property table after an enable request for LPI index `lpi`: the
/// byte for an index inside the table becomes 1 (enabled, no priority
/// bits); a request outside the table changes nothing.
pub open spec fn lpt_after_enable(t: Seq<u8>, lpi: int) -> Seq<u8> {
    if 0 <= lpi < t.len() {
        t.update(lpi, 1u8)
    } else {
        t
    }
}

/// The host-wide LPI property table: one byte per LPI, shared by every
/// Redistributor, whose low bit says whether that LPI may fire.
pub struct LpiPropTable {
    /// Host-physical base of the table's backing frames.
    pub frame: usize,
    /// Number of 4-KiB frames backing the table.
    pub frame_pages: usize,
    /// Host-physical base of the first Redistributor frame.
    pub host_gicr_base: usize,
    /// The table contents: one property byte per LPI.
    pub bytes: Vec<u8>,
}

impl View for LpiPropTable {
    type V = Seq<u8>;

    open spec fn view(&self) -> Seq<u8> {
        self.bytes@
    }
}

impl LpiPropTable {
    /// Builds the table sized from the host's `GICD_TYPER.IDbits` field,
    /// with every LPI disabled, and programs its base (with the
    /// architectural cacheability attributes) into the `GICR_PROPBASER` of
    /// each host Redistributor frame, so that all CPUs share this one table.
    /// The backing frames at `frame` come from the host's frame allocator.
    pub fn new(
        host_gicd_typer: u32,
        host_gicr_base: usize,
        cpu_num: usize,
        frame: usize,
        gicr_frames: &mut Vec<GicPage>,
    ) -> (r: LpiPropTable)
        requires
            ((host_gicd_typer >> 19) & 0x1f) >= 12,
            (1u64 << ((((host_gicd_typer >> 19) & 0x1f) + 1) as u64)) - 8192 <= usize::MAX as u64,
            cpu_num <= old(gicr_frames)@.len(),
            forall|i: int| 0 <= i < old(gicr_frames)@.len() ==> 0x78 <= #[trigger] old(
                gicr_frames,
            )@[i]@.len(),
        ensures
            r.frame == frame,
            r.host_gicr_base == host_gicr_base,
            (r.frame_pages * 4096) as u64 == (1u64 << ((((host_gicd_typer >> 19) & 0x1f) + 1)
                as u64)) - 8192,
            r@ == Seq::new((r.frame_pages * 4096) as nat, |i: int| 0u8),
            final(gicr_frames)@.len() == old(gicr_frames)@.len(),
            forall|i: int|
                0 <= i < cpu_num ==> #[trigger] final(gicr_frames)@[i]@ == le_write(
                    old(gicr_frames)@[i]@,
                    0x70,
                    8,
                    (frame as u64) | 0x78f,
                ),
            forall|i: int|
                cpu_num <= i < old(gicr_frames)@.len() ==> #[trigger] final(gicr_frames)@[i]@
                    == old(gicr_frames)@[i]@,
    {
        let id_bits = (host_gicd_typer >> 19) & 0x1f;
        proof {
            assert((1u64 << ((((host_gicd_typer >> 19) & 0x1f) + 1) as u64)) >= 8192 && ((1u64
                << ((((host_gicd_typer >> 19) & 0x1f) + 1) as u64)) - 8192) % 4096 == 0 && (((
            host_gicd_typer >> 19) & 0x1f) + 1) <= 32) by (bit_vector)
                requires
                    ((host_gicd_typer >> 19) & 0x1f) >= 12,
            ;
        }
        let table_bytes_wide: u64 = (1u64 << ((id_bits + 1) as u64)) - 8192;
        let table_bytes: usize = table_bytes_wide as usize;
        let page_num = table_bytes / 4096;
        let mut bytes: Vec<u8> = Vec::new();
        let mut i: usize = 0;
        while i < table_bytes
            invariant
                i <= table_bytes,
                bytes@ == Seq::new(i as nat, |j: int| 0u8),
            decreases table_bytes - i,
        {
            bytes.push(0u8);
            i = i + 1;
            assert(bytes@ =~= Seq::new(i as nat, |j: int| 0u8));
        }
        let propreg = (frame as u64) | 0x78f;
        let mut id: usize = 0;
        while id < cpu_num
            invariant
                id <= cpu_num,
                cpu_num <= gicr_frames@.len(),
                gicr_frames@.len() == old(gicr_frames)@.len(),
                forall|k: int| 0 <= k < gicr_frames@.len() ==> 0x78 <= #[trigger] gicr_frames@[k]@.len(),
                forall|k: int|
                    0 <= k < id ==> #[trigger] gicr_frames@[k]@ == le_write(
                        old(gicr_frames)@[k]@,
                        0x70,
                        8,
                        propreg,
                    ),
                forall|k: int|
                    id <= k < gicr_frames@.len() ==> #[trigger] gicr_frames@[k]@ == old(
                        gicr_frames,
                    )@[k]@,
            decreases cpu_num - id,
        {
            let mut page = gicr_frames.remove(id);
            page.write(GICR_PROPBASER, AccessWidth::Qword, propreg);
            gicr_frames.insert(id, page);
            id = id + 1;
        }
        proof {
            assert(page_num * 4096 == table_bytes);
        }
        LpiPropTable { frame, frame_pages: page_num, host_gicr_base, bytes }
    }

    /// Marks one LPI as enabled: its property byte becomes 1.  An index
    /// beyond the table is ignored.
    pub fn enable_one_lpi(&mut self, lpi: usize)
        ensures
            final(self)@ == lpt_after_enable(old(self)@, lpi as int),
            final(self).frame == old(self).frame,
            final(self).frame_pages == old(self).frame_pages,
            final(self).host_gicr_base == old(self).host_gicr_base,
    {
        if lpi < self.bytes.len() {
            self.bytes[lpi] = 1u8;
        }
    }

    /// The property byte of LPI index `i`.
    pub fn byte_at(&self, i: usize) -> (r: u8)
        requires
            i < self@.len(),
        ensures
            r == self@[i as int],
    {
        self.bytes[i]
    }

    /// The number of bytes (one per LPI) the table holds.
    pub fn len(&self) -> (r: usize)
        ensures
            r == self@.len(),
    {
        self.bytes.len()
    }
}

/// The purely virtual registers of one Redistributor.
pub struct VGicRRegs {
    /// Shadow of `GICR_PROPBASER`: the guest's idea of where its LPI
    /// property table lives.  The host-wide table is already configured, so
    /// the word is stored and echoed but never reaches hardware.
    pub propbaser: u64,
}

/// The virtual Redistributor of one vCPU.
pub struct VGicR {
    /// The base of this Redistributor's window in the guest's physical
    /// address space.
    pub addr: usize,
    /// The size of the window in bytes.
    pub size: usize,
    /// The vCPU this Redistributor belongs to.
    pub cpu_id: usize,
    /// Host-physical base of the physical Redistributor frame of this vCPU.
    pub host_gicr_base_this_cpu: usize,
    /// Whether this is the last Redistributor in the guest's view.
    pub is_last: bool,
    /// The purely virtual registers.
    pub regs: VGicRRegs,
}

impl VGicR {
    /// A fresh Redistributor for vCPU `cpu_id` of a guest with `cpu_num`
    /// vCPUs, windowed at `addr` and backed by the host frame at
    /// `host_gicr_base + cpu_id * size`.
    pub fn new(
        addr: usize,
        size: Option<usize>,
        cpu_id: usize,
        cpu_num: usize,
        host_gicr_base: usize,
    ) -> (r: VGicR)
        requires
            cpu_id < cpu_num,
            host_gicr_base + cpu_id * (match size {
                Some(s) => s,
                None => 0x20000,
            }) <= usize::MAX,
        ensures
            r.addr == addr,
            r.size == (match size {
                Some(s) => s,
                None => 0x20000,
            }),
            r.cpu_id == cpu_id,
            r.host_gicr_base_this_cpu == host_gicr_base + cpu_id * r.size,
            r.is_last == (cpu_id == cpu_num - 1),
            r.regs.propbaser == 0,
    {
        let size = match size {
            Some(s) => s,
            None => DEFAULT_SIZE_PER_GICR,
        };
        VGicR {
            addr,
            size,
            cpu_id,
            host_gicr_base_this_cpu: host_gicr_base + cpu_id * size,
            is_last: cpu_id == cpu_num - 1,
            regs: VGicRRegs { propbaser: 0 },
        }
    }

    /// The value a guest read of `w` bytes at Redistributor offset `reg`
    /// returns, given this vCPU's host Redistributor frame `mem`.
    pub open spec fn read_val(self, mem: Seq<u8>, reg: int, w: nat) -> u64 {
        if reg == 0x8 {
            gic_read(mem, reg, w) | (if self.is_last {
                0x10u64
            } else {
                0u64
            })
        } else if reg == 0x70 {
            self.regs.propbaser
        } else if reg == 0xc0 {
            0u64
        } else {
            gic_read(mem, reg, w)
        }
    }

    /// Serves a trapped guest read anywhere in the Redistributor window.
    pub fn handle_read(&self, host: &GicPage, addr: usize, width: AccessWidth) -> (r: Result<
        u64,
        crate::VgicError,
    >)
        requires
            host@.len() == 0x20000,
            self.addr <= addr,
            addr - self.addr + width.size() <= 0x20000,
        ensures
            r == Ok::<u64, crate::VgicError>(
                self.read_val(host@, addr - self.addr, width.size() as nat),
            ),
    {
        let reg = addr - self.addr;
        if reg == GICR_TYPER {
            let value = host.read(reg, width);
            if self.is_last {
                Ok(value | GICR_TYPER_LAST)
            } else {
                proof {
                    assert(value | 0u64 == value) by (bit_vector);
                }
                Ok(value)
            }
        } else if reg == GICR_PROPBASER {
            Ok(self.regs.propbaser)
        } else if reg == GICR_SYNCR {
            Ok(0)
        } else {
            Ok(host.read(reg, width))
        }
    }

    /// Serves a trapped guest write anywhere in the Redistributor window.
    pub fn handle_write(
        &mut self,
        host: &mut GicPage,
        lpt: &mut LpiPropTable,
        addr: usize,
        width: AccessWidth,
        val: u64,
    ) -> (r: Result<(), crate::VgicError>)
        requires
            old(host)@.len() == 0x20000,
            old(self).addr <= addr,
            addr - old(self).addr + width.size() <= 0x20000,
        ensures
            r == Ok::<(), crate::VgicError>(()),
            final(self).addr == old(self).addr,
            final(self).size == old(self).size,
            final(self).cpu_id == old(self).cpu_id,
            final(self).host_gicr_base_this_cpu == old(self).host_gicr_base_this_cpu,
            final(self).is_last == old(self).is_last,
            ({
                let reg = addr - old(self).addr;
                let w = width.size() as nat;
                &&& (reg == 0x70 ==> final(self).regs.propbaser == val && final(host)@ == old(host)@
                    && final(lpt)@ == old(lpt)@)
                &&& (reg == 0xa0 ==> final(self).regs == old(self).regs && final(host)@ == old(host)@
                    && final(lpt)@ == lpt_after_enable(old(lpt)@, (val & 0xffffffff) - 8192))
                &&& (reg != 0x70 && reg != 0xa0 ==> final(self).regs == old(self).regs
                    && final(lpt)@ == old(lpt)@ && final(host)@ == gic_write(
                    old(host)@,
                    reg,
                    w,
                    if reg == 0x10180 {
                        val & !(1u64 << MAINTENACE_INTERRUPT)
                    } else {
                        val
                    },
                ))
            }),
    {
        let reg = addr - self.addr;
        if reg == GICR_PROPBASER {
            self.regs.propbaser = val;
            Ok(())
        } else if reg == GICR_INVLPIR {
            // the write names an LPI the guest expects to become deliverable
            let lpi32 = val & 0xffffffff;
            proof {
                assert(val & 0xffffffff <= 0xffffffff) by (bit_vector);
            }
            if lpi32 >= 8192 {
                lpt.enable_one_lpi(#[verifier::truncate] ((lpi32 - 8192) as usize));
            }
            Ok(())
        } else if reg == GICR_ICENABLER {
            // keep the guest from disabling the maintenance interrupt
            let masked = val & !(1u64 << MAINTENACE_INTERRUPT);
            host.write(reg, width, masked);
            Ok(())
        } else {
            host.write(reg, width, val);
            Ok(())
        }
    }
}

/// Builds the process-wide LPI property table; the hypervisor calls this
/// once, before any guest runs, and keeps the table for the hypervisor's
/// life.
pub fn init_lpi_prop(
    host_gicd_typer: u32,
    host_gicr_base: usize,
    cpu_num: usize,
    frame: usize,
    gicr_frames: &mut Vec<GicPage>,
) -> (r: LpiPropTable)
    requires
        ((host_gicd_typer >> 19) & 0x1f) >= 12,
        (1u64 << ((((host_gicd_typer >> 19) & 0x1f) + 1) as u64)) - 8192 <= usize::MAX as u64,
        cpu_num <= old(gicr_frames)@.len(),
        forall|i: int| 0 <= i < old(gicr_frames)@.len() ==> 0x78 <= #[trigger] old(
            gicr_frames,
        )@[i]@.len(),
    ensures
        r.frame == frame,
        r@ == Seq::new((r.frame_pages * 4096) as nat, |i: int| 0u8),
{
    LpiPropTable::new(host_gicd_typer, host_gicr_base, cpu_num, frame, gicr_frames)
}

/// Stores the guest's `GICR_PROPBASER` word into its Redistributor's pure
/// shadow.
pub fn set_prop_baser(regs: &mut VGicRRegs, value: u64)
    ensures
        final(regs).propbaser == value,
{
    regs.propbaser = value;
}

/// The guest's `GICR_PROPBASER` word, from its Redistributor's pure shadow.
pub fn read_prop_baser(regs: &VGicRRegs) -> (r: u64)
    ensures
        r == regs.propbaser,
{
    regs.propbaser
}

/// Marks one LPI as enabled in the shared property table.
pub fn enable_one_lpi(lpt: &mut LpiPropTable, lpi: usize)
    ensures
        final(lpt)@ == lpt_after_enable(old(lpt)@, lpi as int),
        final(lpt).frame == old(lpt).frame,
        final(lpt).frame_pages == old(lpt).frame_pages,
        final(lpt).host_gicr_base == old(lpt).host_gicr_base,
{
    lpt.enable_one_lpi(lpi);
}

/// Programs priority 0x01 into IRQ `irq`'s byte of the SGI-frame priority
/// block and then sets its enable bit, as bringing one private interrupt up
/// requires.
fn set_priority_and_enable(host: &mut GicPage, irq: u32)
    requires
        irq < 32,
        old(host)@.len() == 0x20000,
    ensures
        final(host)@.len() == old(host)@.len(),
        ({
            let po = 0x10400 + (irq as int / 4) * 4;
            let sh = ((irq as int % 4) * 8) as u64;
            let with_prio = gic_write(
                old(host)@,
                po,
                4,
                (gic_read(old(host)@, po, 4) & !(0xffu64 << sh)) | (0x1u64 << sh),
            );
            final(host)@ == gic_write(with_prio, 0x10100, 4, (1u64 << (irq as u64)))
        }),
{
    let reg = (irq / 4) as usize;
    let offset = ((irq % 4) * 8) as u64;
    let po = crate::registers_v3::GICR_IPRIORITYR + reg * 4;
    let prio = host.read(po, AccessWidth::Dword);
    host.write(po, AccessWidth::Dword, (prio & !(0xffu64 << offset)) | (0x1u64 << offset));
    host.write(crate::registers_v3::GICR_ISENABLER, AccessWidth::Dword, 1u64 << (irq as u64));
}

/// Brings the inter-processor interrupt up on one physical Redistributor:
/// puts the IPI's SGI into Group 1, gives it and the hypervisor's
/// maintenance interrupt priority 0x01, and sets both enable bits.  The
/// waker handshake that must precede this — clearing ProcessorSleep and
/// waiting for ChildrenAsleep, a poll on a hardware-owned bit — is the host
/// layer's.
pub fn enable_ipi(host: &mut GicPage, sgi_ipi_id: u32)
    requires
        sgi_ipi_id < 16,
        old(host)@.len() == 0x20000,
    ensures
        final(host)@.len() == old(host)@.len(),
        ({
            let grouped = gic_write(
                old(host)@,
                0x10080,
                4,
                gic_read(old(host)@, 0x10080, 4) | (1u64 << (sgi_ipi_id as u64)),
            );
            let po0 = 0x10400 + (sgi_ipi_id as int / 4) * 4;
            let sh0 = ((sgi_ipi_id as int % 4) * 8) as u64;
            let ipi_prio = gic_write(
                grouped,
                po0,
                4,
                (gic_read(grouped, po0, 4) & !(0xffu64 << sh0)) | (0x1u64 << sh0),
            );
            let ipi_on = gic_write(ipi_prio, 0x10100, 4, (1u64 << (sgi_ipi_id as u64)));
            let mnt_prio = gic_write(
                ipi_on,
                0x10418,
                4,
                (gic_read(ipi_on, 0x10418, 4) & !(0xffu64 << 8)) | (0x1u64 << 8),
            );
            final(host)@ == gic_write(mnt_prio, 0x10100, 4, (1u64 << 25))
        }),
{
    let group = host.read(crate::registers_v3::GICR_IGROUPR, AccessWidth::Dword);
    host.write(
        crate::registers_v3::GICR_IGROUPR,
        AccessWidth::Dword,
        group | (1u64 << (sgi_ipi_id as u64)),
    );
    set_priority_and_enable(host, sgi_ipi_id);
    set_priority_and_enable(host, #[verifier::truncate] (MAINTENACE_INTERRUPT as u32));
}

/// The Last bit of a `GICR_TYPER` read is set on exactly the
/// highest-numbered Redistributor of the guest (`is_last` holds exactly
/// there, by construction in `VGicR::new`), provided the host frame itself
/// leaves the bit clear.
pub proof fn lemma_typer_last_bit(r: VGicR, mem: Seq<u8>, w: nat)
    requires
        gic_read(mem, 0x8, w) & 0x10 == 0,
    ensures
        (r.read_val(mem, 0x8, w) & 0x10 != 0) <==> r.is_last,
{
    let v = gic_read(mem, 0x8, w);
    if r.is_last {
        assert((v | 0x10u64) & 0x10 != 0) by (bit_vector);
    } else {
        assert(v | 0u64 == v) by (bit_vector);
    }
}

} // verus!
