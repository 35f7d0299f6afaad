//! The virtual Interrupt Translation Service and its shadow command queue.
//!
//! A guest programs LPI mappings by appending 32-byte commands to a command
//! ring and ringing the `GITS_CWRITER` doorbell.  The hypervisor traps the
//! doorbell, copies the batch from the guest's ring into a host-owned shadow
//! ring, decodes `MAPI`/`MAPTI` commands so the mapped LPI is enabled in the
//! property table before it can fire, and hands the batch to the physical
//! ITS.  The architecture guarantees the host ITS drains the queue in finite
//! time, so the doorbell is synchronous: when it returns, the host's
//! `GITS_CREADR` has caught up with `GITS_CWRITER` and the guest may observe
//! completion.

use vstd::prelude::*;

use crate::mem::{le_read, le_write, perform_mmio_read, perform_mmio_write, trunc, MmioPage};
use crate::registers_v3::{
    DEFAULT_GITS_SIZE, GITS_CBASER, GITS_CREADR, GITS_CTRL, GITS_CT_BASER, GITS_CWRITER,
    GITS_DT_BASER,
};
use crate::vgicrv3::{lpt_after_enable, LpiPropTable};
use crate::AccessWidth;

verus! {

/// Size in bytes of one ITS command.
pub const BYTES_PER_CMD: usize = 0x20;

/// 64-bit words per ITS command.
pub const QWORD_PER_CMD: usize = 4;

/// Number of command slots in the 64-KiB ring.
pub const RING_SLOTS: usize = 2048;

/// Wraps a byte offset back into the 64-KiB command ring.
pub fn ring_ptr_update(val: usize) -> (r: usize)
    requires
        val < 0x20000,
    ensures
        r == (if val >= 0x10000 {
            val - 0x10000
        } else {
            val as int
        }),
{
    if val >= 0x10000 {
        val - 0x10000
    } else {
        val
    }
}

/// The ring slot a raw `GITS_CBASER`-relative byte offset names: the offset
/// is taken modulo the 64-KiB ring and the sub-slot bits, which the
/// architecture keeps reserved, are dropped.
pub open spec fn slot_of(x: int) -> int {
    (x % 0x10000) / 32
}

/// How many slots lie between slot `r` and slot `w`, going forward around
/// the ring.
pub open spec fn ring_slots_between(r: int, w: int) -> int {
    if w >= r {
        w - r
    } else {
        w + 2048 - r
    }
}

/// The LPI index (relative to the 8192 base) that an ITS command asks to
/// map, if it is one of the two mapping commands: `MAPI` (opcode 0x0b) maps
/// its event id as the interrupt id, `MAPTI` (opcode 0x0a) carries an
/// explicit interrupt id in the high half of its second word.
pub open spec fn cmd_mapped_lpi(w0: u64, w1: u64) -> Option<int> {
    let code = w0 & 0xff;
    if code == 0x0b {
        Some((w1 & 0xffffffff) - 8192)
    } else if code == 0x0a {
        Some((w1 >> 32) - 8192)
    } else {
        None
    }
}

/// The property table after the `n` first commands of a batch that starts
/// at guest ring slot `rs` have been decoded.
pub open spec fn lpt_after_batch(t: Seq<u8>, guest: Seq<u8>, rs: int, n: int) -> Seq<u8>
    decreases n,
{
    if n <= 0 {
        t
    } else {
        let prev = lpt_after_batch(t, guest, rs, n - 1);
        let src = ((rs + n - 1) % 2048) * 32;
        match cmd_mapped_lpi(le_read(guest, src, 8), le_read(guest, src + 8, 8)) {
            Some(l) => lpt_after_enable(prev, l),
            None => prev,
        }
    }
}

/// The shadow ring after the `n` first commands of a batch have been copied
/// from guest ring slot `rs` onward to shadow ring slot `ws` onward.
pub open spec fn ring_after_batch(buf: Seq<u8>, guest: Seq<u8>, rs: int, ws: int, n: int) -> Seq<
    u8,
>
    decreases n,
{
    if n <= 0 {
        buf
    } else {
        let prev = ring_after_batch(buf, guest, rs, ws, n - 1);
        let src = ((rs + n - 1) % 2048) * 32;
        let dst = ((ws + n - 1) % 2048) * 32;
        le_write(
            le_write(
                le_write(
                    le_write(prev, dst, 8, le_read(guest, src, 8)),
                    dst + 8,
                    8,
                    le_read(guest, src + 8, 8),
                ),
                dst + 16,
                8,
                le_read(guest, src + 16, 8),
            ),
            dst + 24,
            8,
            le_read(guest, src + 24, 8),
        )
    }
}

/// The purely virtual ITS registers of one guest.
#[derive(PartialEq, Eq, Structural)]
pub struct VirtualGitsRegs {
    /// Shadow of the collection-table `GITS_BASER` word.
    pub ct_baser: u64,
    /// Shadow of the device-table `GITS_BASER` word.
    pub dt_baser: u64,
    /// Shadow of `GITS_CBASER`: where the guest put its command ring.
    pub cbaser: u64,
    /// Shadow of `GITS_CREADR`: how far the guest's commands are consumed.
    pub creadr: u64,
    /// Shadow of `GITS_CWRITER`: the guest's ring tail.
    pub cwriter: u64,
}

/// The host-owned shadow command queue: one per physical ITS, shared by
/// every guest.
pub struct Cmdq {
    /// Host-physical base of the 64-KiB shadow ring.
    pub phy_addr: usize,
    /// Byte offset in the shadow ring up to which the host ITS has
    /// consumed.
    pub readr: usize,
    /// Byte offset in the shadow ring up to which commands have been
    /// shadowed.
    pub writer: usize,
    /// Host-physical base of the physical ITS register page.
    pub host_gits_base: usize,
    /// Host-physical base of the dummy device table handed to the host ITS.
    pub dt_addr: usize,
    /// Host-physical base of the dummy collection table handed to the host
    /// ITS.
    pub ct_addr: usize,
    /// Contents of the shadow ring.
    pub buf: MmioPage,
}

impl Cmdq {
    /// At rest the queue is drained: every shadowed command has been
    /// consumed, and both pointers sit on a slot boundary inside the ring.
    pub open spec fn wf(self) -> bool {
        &&& self.readr == self.writer
        &&& self.writer < 0x10000
        &&& self.writer % 32 == 0
        &&& self.buf@.len() == 0x10000
    }

    /// Takes the physical ITS's command queue over: disables the ITS,
    /// points the host `GITS_CBASER` at the shadow ring (cacheable,
    /// 16 frames, valid) and rewinds the host `GITS_CWRITER`.  The guest is
    /// expected to re-enable the ITS through the trapped `GITS_CTRL`.
    fn init_real_cbaser(&self, host: &mut MmioPage)
        requires
            old(host)@.len() == 0x20000,
        ensures
            final(host)@ == le_write(
                le_write(
                    le_write(
                        old(host)@,
                        0x0,
                        8,
                        le_read(old(host)@, 0x0, 8) & 0xfffffffffffffffeu64,
                    ),
                    0x80,
                    8,
                    0xb80000000000040fu64 | (self.phy_addr as u64),
                ),
                0x88,
                8,
                0,
            ),
    {
        let origin_ctrl = perform_mmio_read(host, GITS_CTRL, AccessWidth::Qword);
        perform_mmio_write(host, GITS_CTRL, AccessWidth::Qword, origin_ctrl & 0xfffffffffffffffeu64);
        perform_mmio_write(
            host,
            GITS_CBASER,
            AccessWidth::Qword,
            0xb80000000000040fu64 | (self.phy_addr as u64),
        );
        perform_mmio_write(host, GITS_CWRITER, AccessWidth::Qword, 0);
    }

    /// Gives the physical ITS dummy 64-KiB device and collection tables, so
    /// that it stays functional although its command queue has been taken
    /// over: each `GITS_BASER` word keeps the host's field values and gains
    /// the table's address, the valid bit, inner-cacheable and
    /// inner-shareable attributes and a 16-frame size.
    fn init_dummy_dt_ct_baser(&self, host: &mut MmioPage)
        requires
            old(host)@.len() == 0x20000,
        ensures
            final(host)@ == le_write(
                le_write(
                    old(host)@,
                    0x100,
                    8,
                    le_read(old(host)@, 0x100, 8) | ((self.dt_addr as u64) & 0x0000_ffff_ffff_f000)
                        | (1u64 << 63) | (0x7u64 << 59) | (0x1u64 << 10) | 15,
                ),
                0x108,
                8,
                le_read(old(host)@, 0x108, 8) | ((self.ct_addr as u64) & 0x0000_ffff_ffff_f000) | (
                1u64 << 63) | (0x7u64 << 59) | (0x1u64 << 10) | 15,
            ),
    {
        let dt_baser = perform_mmio_read(host, GITS_DT_BASER, AccessWidth::Qword);
        let ct_baser = perform_mmio_read(host, GITS_CT_BASER, AccessWidth::Qword);
        let dt_baser = dt_baser | ((self.dt_addr as u64) & 0x0000_ffff_ffff_f000) | (1u64 << 63) | (
        0x7u64 << 59) | (0x1u64 << 10) | 15;
        let ct_baser = ct_baser | ((self.ct_addr as u64) & 0x0000_ffff_ffff_f000) | (1u64 << 63) | (
        0x7u64 << 59) | (0x1u64 << 10) | 15;
        perform_mmio_write(host, GITS_DT_BASER, AccessWidth::Qword, dt_baser);
        perform_mmio_write(host, GITS_CT_BASER, AccessWidth::Qword, ct_baser);
    }

    /// A fresh, drained shadow queue whose ring lives at `phy_addr` and
    /// whose dummy tables live at `dt_addr` and `ct_addr` (all three come
    /// from the host's frame allocator, 16 contiguous frames each), wired
    /// into the physical ITS at `host_gits_base`.
    pub fn new(
        host_gits_base: usize,
        phy_addr: usize,
        dt_addr: usize,
        ct_addr: usize,
        host: &mut MmioPage,
    ) -> (r: Cmdq)
        requires
            old(host)@.len() == 0x20000,
        ensures
            r.wf(),
            r.phy_addr == phy_addr,
            r.readr == 0,
            r.writer == 0,
            r.host_gits_base == host_gits_base,
            r.dt_addr == dt_addr,
            r.ct_addr == ct_addr,
            r.buf@ == Seq::new(0x10000, |i: int| 0u8),
            ({
                let after_cbaser = le_write(
                    le_write(
                        le_write(
                            old(host)@,
                            0x0,
                            8,
                            le_read(old(host)@, 0x0, 8) & 0xfffffffffffffffeu64,
                        ),
                        0x80,
                        8,
                        0xb80000000000040fu64 | (phy_addr as u64),
                    ),
                    0x88,
                    8,
                    0,
                );
                final(host)@ == le_write(
                    le_write(
                        after_cbaser,
                        0x100,
                        8,
                        le_read(after_cbaser, 0x100, 8) | ((dt_addr as u64) & 0x0000_ffff_ffff_f000)
                            | (1u64 << 63) | (0x7u64 << 59) | (0x1u64 << 10) | 15,
                    ),
                    0x108,
                    8,
                    le_read(after_cbaser, 0x108, 8) | ((ct_addr as u64) & 0x0000_ffff_ffff_f000) | (
                    1u64 << 63) | (0x7u64 << 59) | (0x1u64 << 10) | 15,
                )
            }),
    {
        let r = Cmdq {
            phy_addr,
            readr: 0,
            writer: 0,
            host_gits_base,
            dt_addr,
            ct_addr,
            buf: MmioPage::new(0x10000),
        };
        r.init_real_cbaser(host);
        r.init_dummy_dt_ct_baser(host);
        r
    }

    /// Decodes one command and performs the part that is the hypervisor's
    /// own: a `MAPI` or `MAPTI` enables the mapped LPI in the property
    /// table before the command reaches the hardware.  Every other command
    /// is the hardware's business and only passes through.
    fn analyze_cmd(&self, w0: u64, w1: u64, lpt: &mut LpiPropTable)
        ensures
            final(lpt)@ == (match cmd_mapped_lpi(w0, w1) {
                Some(l) => lpt_after_enable(old(lpt)@, l),
                None => old(lpt)@,
            }),
            final(lpt).frame == old(lpt).frame,
            final(lpt).frame_pages == old(lpt).frame_pages,
            final(lpt).host_gicr_base == old(lpt).host_gicr_base,
    {
        let code = w0 & 0xff;
        if code == 0x0b {
            let event = w1 & 0xffffffff;
            proof {
                assert(w1 & 0xffffffff <= 0xffffffff) by (bit_vector);
            }
            if event >= 8192 {
                lpt.enable_one_lpi((event - 8192) as usize);
            }
        } else if code == 0x0a {
            let intid = w1 >> 32;
            proof {
                assert(w1 >> 32 <= 0xffffffff) by (bit_vector);
            }
            if intid >= 8192 {
                lpt.enable_one_lpi((intid - 8192) as usize);
            }
        }
    }

    /// The doorbell: shadows the guest's batch of commands, enables every
    /// LPI the batch maps, hands the batch to the physical ITS and waits
    /// for it to drain.  `guest_ring` is the guest's 64-KiB command ring —
    /// the memory its `GITS_CBASER` names — and `vm_creadr`/`vm_writer` are
    /// the guest-visible consumed and tail offsets into it.  Returns the
    /// new guest-visible `GITS_CREADR`, which after the synchronous drain
    /// is the tail the guest just wrote.
    pub fn insert_cmd(
        &mut self,
        guest_ring: &MmioPage,
        host: &mut MmioPage,
        lpt: &mut LpiPropTable,
        vm_creadr: u64,
        vm_writer: u64,
    ) -> (r: u64)
        requires
            old(self).wf(),
            guest_ring@.len() == 0x10000,
            old(host)@.len() == 0x20000,
        ensures
            r == vm_writer,
            final(self).wf(),
            final(self).phy_addr == old(self).phy_addr,
            final(self).host_gits_base == old(self).host_gits_base,
            final(self).dt_addr == old(self).dt_addr,
            final(self).ct_addr == old(self).ct_addr,
            final(lpt).frame == old(lpt).frame,
            final(lpt).frame_pages == old(lpt).frame_pages,
            final(lpt).host_gicr_base == old(lpt).host_gicr_base,
            ({
                let rs = slot_of(vm_creadr as int);
                let ts = slot_of(vm_writer as int);
                let count = ring_slots_between(rs, ts);
                let ws = old(self).writer as int / 32;
                let nw = ((ws + count) % 2048) * 32;
                &&& final(self).writer == nw
                &&& final(self).readr == nw
                &&& final(self).buf@ == ring_after_batch(old(self).buf@, guest_ring@, rs, ws, count)
                &&& final(lpt)@ == lpt_after_batch(old(lpt)@, guest_ring@, rs, count)
                &&& final(host)@ == le_write(
                    le_write(old(host)@, 0x88, 8, nw as u64),
                    0x90,
                    8,
                    nw as u64,
                )
                &&& le_read(final(host)@, 0x88, 8) == nw as u64
                &&& le_read(final(host)@, 0x90, 8) == nw as u64
            }),
    {
        let rs: usize = ((vm_creadr % 0x10000) as usize) / 32;
        let ts: usize = ((vm_writer % 0x10000) as usize) / 32;
        let cmd_num: usize = if ts >= rs {
            ts - rs
        } else {
            ts + RING_SLOTS - rs
        };
        let ws: usize = self.writer / 32;

        let mut i: usize = 0;
        while i < cmd_num
            invariant
                i <= cmd_num,
                cmd_num < 2048,
                rs < 2048,
                ws < 2048,
                guest_ring@.len() == 0x10000,
                self.buf@.len() == 0x10000,
                self.buf@ == ring_after_batch(old(self).buf@, guest_ring@, rs as int, ws as int, i as int),
                lpt@ == lpt_after_batch(old(lpt)@, guest_ring@, rs as int, i as int),
                lpt.frame == old(lpt).frame,
                lpt.frame_pages == old(lpt).frame_pages,
                lpt.host_gicr_base == old(lpt).host_gicr_base,
                self.phy_addr == old(self).phy_addr,
                self.readr == old(self).readr,
                self.writer == old(self).writer,
                self.host_gits_base == old(self).host_gits_base,
                self.dt_addr == old(self).dt_addr,
                self.ct_addr == old(self).ct_addr,
            decreases cmd_num - i,
        {
            let src: usize = ((rs + i) % RING_SLOTS) * BYTES_PER_CMD;
            let dst: usize = ((ws + i) % RING_SLOTS) * BYTES_PER_CMD;
            let w0 = perform_mmio_read(guest_ring, src, AccessWidth::Qword);
            let w1 = perform_mmio_read(guest_ring, src + 8, AccessWidth::Qword);
            let w2 = perform_mmio_read(guest_ring, src + 16, AccessWidth::Qword);
            let w3 = perform_mmio_read(guest_ring, src + 24, AccessWidth::Qword);
            self.analyze_cmd(w0, w1, lpt);
            perform_mmio_write(&mut self.buf, dst, AccessWidth::Qword, w0);
            perform_mmio_write(&mut self.buf, dst + 8, AccessWidth::Qword, w1);
            perform_mmio_write(&mut self.buf, dst + 16, AccessWidth::Qword, w2);
            perform_mmio_write(&mut self.buf, dst + 24, AccessWidth::Qword, w3);
            i = i + 1;
        }

        let nws: usize = (ws + cmd_num) % RING_SLOTS;
        self.writer = nws * BYTES_PER_CMD;
        perform_mmio_write(host, GITS_CWRITER, AccessWidth::Qword, self.writer as u64);
        // the GIC architecture guarantees the host ITS consumes the queue in
        // finite time; the post-drain state has the host read pointer at the
        // tail just published
        perform_mmio_write(host, GITS_CREADR, AccessWidth::Qword, self.writer as u64);
        self.readr = self.writer;
        proof {
            crate::mem::lemma_le_read_of_le_write(
                le_write(old(host)@, 0x88, 8, self.writer as u64),
                0x90,
                8,
                self.writer as u64,
            );
            crate::mem::lemma_le_read_frame(
                le_write(old(host)@, 0x88, 8, self.writer as u64),
                le_write(
                    le_write(old(host)@, 0x88, 8, self.writer as u64),
                    0x90,
                    8,
                    self.writer as u64,
                ),
                0x88,
                8,
            );
            crate::mem::lemma_le_read_of_le_write(old(host)@, 0x88, 8, self.writer as u64);
        }
        vm_writer
    }
}

/// The virtual ITS of one guest.
pub struct Gits {
    /// The base of the ITS window in the guest's physical address space.
    pub addr: usize,
    /// The size of the window in bytes.
    pub size: usize,
    /// Host-physical base of the physical ITS register page.
    pub host_gits_base: usize,
    /// Whether this guest is the privileged domain that owns the physical
    /// ITS tables.
    pub is_root_vm: bool,
    /// The purely virtual registers.
    pub regs: VirtualGitsRegs,
}

impl Gits {
    /// A fresh virtual ITS windowed at `addr`, with every shadow register
    /// zero.  The process-wide shadow queue and LPI property table must
    /// already exist before any guest is started.
    pub fn new(addr: usize, size: Option<usize>, host_gits_base: usize, is_root_vm: bool) -> (r:
        Gits)
        ensures
            r.addr == addr,
            r.size == (match size {
                Some(s) => s,
                None => 0x20000,
            }),
            r.host_gits_base == host_gits_base,
            r.is_root_vm == is_root_vm,
            r.regs == (VirtualGitsRegs { ct_baser: 0, dt_baser: 0, cbaser: 0, creadr: 0, cwriter: 0 }),
    {
        let size = match size {
            Some(s) => s,
            None => DEFAULT_GITS_SIZE,
        };
        Gits {
            addr,
            size,
            host_gits_base,
            is_root_vm,
            regs: VirtualGitsRegs { ct_baser: 0, dt_baser: 0, cbaser: 0, creadr: 0, cwriter: 0 },
        }
    }

    /// The value a guest read of `w` bytes at ITS offset `reg` returns,
    /// given host ITS register state `mem`.
    pub open spec fn read_val(self, mem: Seq<u8>, reg: int, w: nat) -> u64 {
        if reg == 0x80 {
            self.regs.cbaser
        } else if reg == 0x100 {
            if self.is_root_vm {
                le_read(mem, reg, w)
            } else {
                trunc(self.regs.dt_baser, w)
            }
        } else if reg == 0x108 {
            if self.is_root_vm {
                le_read(mem, reg, w)
            } else {
                trunc(self.regs.ct_baser, w)
            }
        } else if reg == 0x88 {
            self.regs.cwriter
        } else if reg == 0x90 {
            self.regs.creadr
        } else {
            le_read(mem, reg, w)
        }
    }

    /// Serves a trapped guest read anywhere in the ITS window.
    pub fn handle_read(&self, host: &MmioPage, addr: usize, width: AccessWidth) -> (r: Result<
        u64,
        crate::VgicError,
    >)
        requires
            host@.len() == 0x20000,
            self.addr <= addr,
            addr - self.addr + width.size() <= 0x20000,
        ensures
            r == Ok::<u64, crate::VgicError>(
                self.read_val(host@, addr - self.addr, width.size() as nat),
            ),
    {
        let reg = addr - self.addr;
        if reg == GITS_CBASER {
            Ok(self.regs.cbaser)
        } else if reg == GITS_DT_BASER {
            if self.is_root_vm {
                Ok(perform_mmio_read(host, reg, width))
            } else if width.size() < 8 {
                let n = width.size();
                proof {
                    assert((1u64 << ((8 * n) as u64)) >= 1) by (bit_vector)
                        requires
                            n < 8,
                    ;
                }
                Ok(self.regs.dt_baser & (((1u64 << ((8 * n) as u64)) - 1) as u64))
            } else {
                Ok(self.regs.dt_baser)
            }
        } else if reg == GITS_CT_BASER {
            if self.is_root_vm {
                Ok(perform_mmio_read(host, reg, width))
            } else if width.size() < 8 {
                let n = width.size();
                proof {
                    assert((1u64 << ((8 * n) as u64)) >= 1) by (bit_vector)
                        requires
                            n < 8,
                    ;
                }
                Ok(self.regs.ct_baser & (((1u64 << ((8 * n) as u64)) - 1) as u64))
            } else {
                Ok(self.regs.ct_baser)
            }
        } else if reg == GITS_CWRITER {
            Ok(self.regs.cwriter)
        } else if reg == GITS_CREADR {
            Ok(self.regs.creadr)
        } else {
            Ok(perform_mmio_read(host, reg, width))
        }
    }

    /// Serves a trapped guest write anywhere in the ITS window.  The
    /// `GITS_CWRITER` doorbell shadows and drains the guest's command batch
    /// through the process-wide queue; a guest write to the hardware-owned
    /// `GITS_CREADR` is a protocol violation the hypervisor must treat as
    /// fatal.
    pub fn handle_write(
        &mut self,
        host: &mut MmioPage,
        cmdq: &mut Cmdq,
        lpt: &mut LpiPropTable,
        guest_ring: &MmioPage,
        addr: usize,
        width: AccessWidth,
        val: u64,
    ) -> (r: Result<(), crate::VgicError>)
        requires
            old(cmdq).wf(),
            old(host)@.len() == 0x20000,
            guest_ring@.len() == 0x10000,
            old(self).addr <= addr,
            addr - old(self).addr + width.size() <= 0x20000,
        ensures
            final(self).addr == old(self).addr,
            final(self).size == old(self).size,
            final(self).host_gits_base == old(self).host_gits_base,
            final(self).is_root_vm == old(self).is_root_vm,
            final(cmdq).wf(),
            final(lpt).frame == old(lpt).frame,
            final(lpt).frame_pages == old(lpt).frame_pages,
            final(lpt).host_gicr_base == old(lpt).host_gicr_base,
            ({
                let reg = addr - old(self).addr;
                let w = width.size() as nat;
                if reg == 0x90 {
                    &&& r == Err::<(), crate::VgicError>(crate::VgicError::HardwareOwnedRegister)
                    &&& final(self).regs == old(self).regs
                    &&& final(host)@ == old(host)@
                    &&& *final(cmdq) == *old(cmdq)
                    &&& final(lpt)@ == old(lpt)@
                } else if reg == 0x80 {
                    &&& r == Ok::<(), crate::VgicError>(())
                    &&& final(self).regs.cbaser == val
                    &&& final(self).regs.dt_baser == old(self).regs.dt_baser
                    &&& final(self).regs.ct_baser == old(self).regs.ct_baser
                    &&& final(self).regs.creadr == old(self).regs.creadr
                    &&& final(self).regs.cwriter == old(self).regs.cwriter
                    &&& final(host)@ == (if old(self).is_root_vm {
                        le_write(old(host)@, 0x80, w, val)
                    } else {
                        old(host)@
                    })
                    &&& *final(cmdq) == *old(cmdq)
                    &&& final(lpt)@ == old(lpt)@
                } else if reg == 0x100 {
                    &&& r == Ok::<(), crate::VgicError>(())
                    &&& final(self).regs.dt_baser == (if old(self).is_root_vm {
                        old(self).regs.dt_baser
                    } else {
                        val
                    })
                    &&& final(self).regs.cbaser == old(self).regs.cbaser
                    &&& final(self).regs.ct_baser == old(self).regs.ct_baser
                    &&& final(self).regs.creadr == old(self).regs.creadr
                    &&& final(self).regs.cwriter == old(self).regs.cwriter
                    &&& final(host)@ == (if old(self).is_root_vm {
                        le_write(old(host)@, 0x100, w, val)
                    } else {
                        old(host)@
                    })
                    &&& *final(cmdq) == *old(cmdq)
                    &&& final(lpt)@ == old(lpt)@
                } else if reg == 0x108 {
                    &&& r == Ok::<(), crate::VgicError>(())
                    &&& final(self).regs.ct_baser == (if old(self).is_root_vm {
                        old(self).regs.ct_baser
                    } else {
                        val
                    })
                    &&& final(self).regs.cbaser == old(self).regs.cbaser
                    &&& final(self).regs.dt_baser == old(self).regs.dt_baser
                    &&& final(self).regs.creadr == old(self).regs.creadr
                    &&& final(self).regs.cwriter == old(self).regs.cwriter
                    &&& final(host)@ == (if old(self).is_root_vm {
                        le_write(old(host)@, 0x108, w, val)
                    } else {
                        old(host)@
                    })
                    &&& *final(cmdq) == *old(cmdq)
                    &&& final(lpt)@ == old(lpt)@
                } else if reg == 0x88 {
                    &&& r == Ok::<(), crate::VgicError>(())
                    &&& final(self).regs.cbaser == old(self).regs.cbaser
                    &&& final(self).regs.dt_baser == old(self).regs.dt_baser
                    &&& final(self).regs.ct_baser == old(self).regs.ct_baser
                    &&& final(self).regs.cwriter == val
                    &&& (if val == 0 {
                        &&& final(self).regs.creadr == old(self).regs.creadr
                        &&& final(host)@ == old(host)@
                        &&& *final(cmdq) == *old(cmdq)
                        &&& final(lpt)@ == old(lpt)@
                    } else {
                        let rs = slot_of(old(self).regs.creadr as int);
                        let ts = slot_of(val as int);
                        let count = ring_slots_between(rs, ts);
                        let ws = old(cmdq).writer as int / 32;
                        let nw = ((ws + count) % 2048) * 32;
                        &&& final(self).regs.creadr == val
                        &&& final(cmdq).writer == nw
                        &&& final(cmdq).readr == nw
                        &&& final(cmdq).buf@ == ring_after_batch(
                            old(cmdq).buf@,
                            guest_ring@,
                            rs,
                            ws,
                            count,
                        )
                        &&& final(lpt)@ == lpt_after_batch(old(lpt)@, guest_ring@, rs, count)
                        &&& final(host)@ == le_write(
                            le_write(old(host)@, 0x88, 8, nw as u64),
                            0x90,
                            8,
                            nw as u64,
                        )
                    })
                } else {
                    &&& r == Ok::<(), crate::VgicError>(())
                    &&& final(self).regs == old(self).regs
                    &&& final(host)@ == le_write(old(host)@, reg, w, val)
                    &&& *final(cmdq) == *old(cmdq)
                    &&& final(lpt)@ == old(lpt)@
                }
            }),
    {
        let reg = addr - self.addr;
        if reg == GITS_CBASER {
            if self.is_root_vm {
                perform_mmio_write(host, reg, width, val);
            }
            self.regs.cbaser = val;
            Ok(())
        } else if reg == GITS_DT_BASER {
            if self.is_root_vm {
                perform_mmio_write(host, reg, width, val);
            } else {
                self.regs.dt_baser = val;
            }
            Ok(())
        } else if reg == GITS_CT_BASER {
            if self.is_root_vm {
                perform_mmio_write(host, reg, width, val);
            } else {
                self.regs.ct_baser = val;
            }
            Ok(())
        } else if reg == GITS_CWRITER {
            self.regs.cwriter = val;
            if val != 0 {
                let creadr = self.regs.creadr;
                self.regs.creadr = cmdq.insert_cmd(guest_ring, host, lpt, creadr, val);
            }
            Ok(())
        } else if reg == GITS_CREADR {
            Err(crate::VgicError::HardwareOwnedRegister)
        } else {
            perform_mmio_write(host, reg, width, val);
            Ok(())
        }
    }
}

/// `ring_after_batch` keeps the ring's size.
pub proof fn lemma_ring_after_batch_len(buf: Seq<u8>, guest: Seq<u8>, rs: int, ws: int, n: int)
    ensures
        ring_after_batch(buf, guest, rs, ws, n).len() == buf.len(),
    decreases n,
{
    if n > 0 {
        lemma_ring_after_batch_len(buf, guest, rs, ws, n - 1);
    }
}

/// Every shadowed command lands intact: after a batch of `n` commands, the
/// shadow ring holds, word for word, the guest's command `i`.
pub proof fn lemma_batch_copies_commands(
    buf: Seq<u8>,
    guest: Seq<u8>,
    rs: int,
    ws: int,
    n: int,
    i: int,
    q: int,
)
    requires
        buf.len() == 0x10000,
        guest.len() == 0x10000,
        0 <= rs,
        0 <= ws,
        0 <= i < n <= 2048,
        0 <= q < 4,
    ensures
        le_read(ring_after_batch(buf, guest, rs, ws, n), ((ws + i) % 2048) * 32 + 8 * q, 8)
            == le_read(guest, ((rs + i) % 2048) * 32 + 8 * q, 8),
    decreases n,
{
    let prev = ring_after_batch(buf, guest, rs, ws, n - 1);
    lemma_ring_after_batch_len(buf, guest, rs, ws, n - 1);
    let src = ((rs + n - 1) % 2048) * 32;
    let dst = ((ws + n - 1) % 2048) * 32;
    assert(0 <= (ws + n - 1) % 2048 < 2048 && 0 <= (rs + n - 1) % 2048 < 2048 && 0 <= (ws + i)
        % 2048 < 2048 && 0 <= (rs + i) % 2048 < 2048) by (nonlinear_arith)
        requires
            0 <= ws,
            0 <= rs,
            0 <= i < n,
    ;
    let s0 = le_write(prev, dst, 8, le_read(guest, src, 8));
    let s1 = le_write(s0, dst + 8, 8, le_read(guest, src + 8, 8));
    let s2 = le_write(s1, dst + 16, 8, le_read(guest, src + 16, 8));
    let s3 = le_write(s2, dst + 24, 8, le_read(guest, src + 24, 8));
    assert(ring_after_batch(buf, guest, rs, ws, n) == s3);
    if i == n - 1 {
        let p = dst + 8 * q;
        if q == 0 {
            crate::mem::lemma_le_read_of_le_write(prev, dst, 8, le_read(guest, src, 8));
            crate::mem::lemma_le_read_frame(s0, s3, p, 8);
        } else if q == 1 {
            crate::mem::lemma_le_read_of_le_write(s0, dst + 8, 8, le_read(guest, src + 8, 8));
            crate::mem::lemma_le_read_frame(s1, s3, p, 8);
        } else if q == 2 {
            crate::mem::lemma_le_read_of_le_write(s1, dst + 16, 8, le_read(guest, src + 16, 8));
            crate::mem::lemma_le_read_frame(s2, s3, p, 8);
        } else {
            crate::mem::lemma_le_read_of_le_write(s2, dst + 24, 8, le_read(guest, src + 24, 8));
        }
    } else {
        lemma_batch_copies_commands(buf, guest, rs, ws, n - 1, i, q);
        let p = ((ws + i) % 2048) * 32 + 8 * q;
        assert((ws + i) % 2048 != (ws + n - 1) % 2048) by (nonlinear_arith)
            requires
                0 <= ws,
                0 <= i < n - 1,
                n <= 2048,
        ;
        crate::mem::lemma_le_read_frame(prev, s3, p, 8);
    }
}

/// A batch touches only the slots it writes: a byte in a slot the batch
/// does not cover keeps its value.
pub proof fn lemma_batch_preserves_other_slots(
    buf: Seq<u8>,
    guest: Seq<u8>,
    rs: int,
    ws: int,
    n: int,
    j: int,
)
    requires
        buf.len() == 0x10000,
        0 <= ws,
        0 <= n <= 2048,
        0 <= j < 0x10000,
        ring_slots_between(ws % 2048, j / 32) >= n,
    ensures
        ring_after_batch(buf, guest, rs, ws, n)[j] == buf[j],
    decreases n,
{
    if n > 0 {
        lemma_batch_preserves_other_slots(buf, guest, rs, ws, n - 1, j);
        lemma_ring_after_batch_len(buf, guest, rs, ws, n - 1);
        let dst = ((ws + n - 1) % 2048) * 32;
        assert(0 <= j / 32 < 2048 && j / 32 * 32 <= j < j / 32 * 32 + 32) by (nonlinear_arith)
            requires
                0 <= j < 0x10000,
        ;
        assert((ws + n - 1) % 2048 != j / 32) by (nonlinear_arith)
            requires
                0 <= ws,
                0 < n <= 2048,
                ring_slots_between(ws % 2048, j / 32) >= n,
                0 <= j / 32 < 2048,
        ;
        assert(!(dst <= j < dst + 32)) by (nonlinear_arith)
            requires
                dst == ((ws + n - 1) % 2048) * 32,
                (ws + n - 1) % 2048 != j / 32,
                0 <= (ws + n - 1) % 2048 < 2048,
                j / 32 * 32 <= j < j / 32 * 32 + 32,
        ;
    }
}

/// A batch never disables an LPI: the property table only gains 1-bytes.
pub proof fn lemma_batch_len_and_monotone(t: Seq<u8>, guest: Seq<u8>, rs: int, n: int, l: int)
    ensures
        lpt_after_batch(t, guest, rs, n).len() == t.len(),
        (0 <= l < t.len() && t[l] == 1) ==> lpt_after_batch(t, guest, rs, n)[l] == 1,
    decreases n,
{
    if n > 0 {
        lemma_batch_len_and_monotone(t, guest, rs, n - 1, l);
    }
}

/// Every LPI that a `MAPI` or `MAPTI` command of a batch maps is enabled in
/// the property table once the batch has been shadowed, provided its index
/// lies within the table.
pub proof fn lemma_batch_enables_mapped(
    t: Seq<u8>,
    guest: Seq<u8>,
    rs: int,
    n: int,
    i: int,
    l: int,
)
    requires
        0 <= i < n,
        cmd_mapped_lpi(
            le_read(guest, ((rs + i) % 2048) * 32, 8),
            le_read(guest, ((rs + i) % 2048) * 32 + 8, 8),
        ) == Some(l),
        0 <= l < t.len(),
    ensures
        lpt_after_batch(t, guest, rs, n)[l] == 1,
    decreases n,
{
    lemma_batch_len_and_monotone(t, guest, rs, n - 1, l);
    if i == n - 1 {
        let prev = lpt_after_batch(t, guest, rs, n - 1);
        assert(lpt_after_batch(t, guest, rs, n) == lpt_after_enable(prev, l));
    } else {
        lemma_batch_enables_mapped(t, guest, rs, n - 1, i, l);
    }
}

} // verus!
