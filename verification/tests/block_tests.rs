use vgic::gicd::Gicd;
use vgic::gicr::Gicr;
use vgic::interrupt::TriggerMode;
use vgic::mem::{perform_mmio_read, perform_mmio_write, MmioPage};
use vgic::vtimer::{SysCntpTvalEl0, SysCntpctEl0};
use vgic::AccessWidth;

fn all_level() -> Vec<TriggerMode> {
    let mut t = Vec::new();
    for _ in 0..1020 {
        t.push(TriggerMode::Level);
    }
    t
}

#[test]
fn gicd_block_reset_values() {
    let mut page = MmioPage::new(0x10000);
    let triggers = all_level();
    let g = Gicd::new(&mut page, 4, &triggers, Vec::new());
    // CTLR: ARE_NS | DS
    assert_eq!(perform_mmio_read(&page, 0x0, AccessWidth::Dword), 0x60);
    // TYPER: 31 ITLines blocks - 1, CPUNumber = 4
    assert_eq!(perform_mmio_read(&page, 0x4, AccessWidth::Dword), 30 | (4 << 5));
    // every interrupt Group 1
    assert_eq!(perform_mmio_read(&page, 0x80, AccessWidth::Dword), 0xffff_ffff);
    assert_eq!(perform_mmio_read(&page, 0xfc, AccessWidth::Dword), 0xffff_ffff);
    // priorities at the Linux default
    assert_eq!(perform_mmio_read(&page, 0x400, AccessWidth::Dword), 0xa0a0_a0a0);
    assert_eq!(perform_mmio_read(&page, 0x7f8, AccessWidth::Dword), 0xa0a0_a0a0);
    // everything disabled, nothing pending or active
    assert_eq!(perform_mmio_read(&page, 0x180, AccessWidth::Dword), 0xffff_ffff);
    assert_eq!(perform_mmio_read(&page, 0x280, AccessWidth::Dword), 0xffff_ffff);
    assert_eq!(perform_mmio_read(&page, 0x380, AccessWidth::Dword), 0xffff_ffff);
    // group modifier and access control zero
    assert_eq!(perform_mmio_read(&page, 0xd00, AccessWidth::Dword), 0);
    assert_eq!(perform_mmio_read(&page, 0xe00, AccessWidth::Dword), 0);
    // PIDR2 on the first and last 4-KiB page
    assert_eq!(perform_mmio_read(&page, 0xfe8, AccessWidth::Dword), 0x3b);
    assert_eq!(perform_mmio_read(&page, 0xffe8, AccessWidth::Dword), 0x3b);
    assert!(g.cfg_shot.len() == 64);
}

#[test]
fn gicd_sweep_reports_reconfigured_spi() {
    let mut page = MmioPage::new(0x10000);
    let triggers = all_level();
    let mut g = Gicd::new(&mut page, 2, &triggers, Vec::new());
    // the guest flips IRQ 40 to edge: ICFGR word 2, field 8
    perform_mmio_write(&mut page, 0xc00 + 4 * 2, AccessWidth::Dword, 0x2 << 16);
    let out = g.setup_cfg(&page);
    assert_eq!(out.len(), 1);
    assert_eq!(out[0], (40, TriggerMode::Edge));
    // a second sweep sees no further change
    let out2 = g.setup_cfg(&page);
    assert_eq!(out2.len(), 0);
}

#[test]
fn gicd_sweep_respects_virt_irq_list() {
    let mut page = MmioPage::new(0x10000);
    let triggers = all_level();
    let mut virt = Vec::new();
    virt.push(41usize);
    let mut g = Gicd::new(&mut page, 2, &triggers, virt);
    perform_mmio_write(&mut page, 0xc00 + 4 * 2, AccessWidth::Dword, (0x2 << 16) | (0x2 << 18));
    let out = g.setup_cfg(&page);
    // IRQ 40 is not on the list; only IRQ 41 is reported
    assert_eq!(out.len(), 1);
    assert_eq!(out[0], (41, TriggerMode::Edge));
}

#[test]
fn gicr_block_reset_values() {
    let mut base = MmioPage::new(0x1000);
    let mut sgi = MmioPage::new(0x1000);
    let mut triggers = all_level();
    triggers[17] = TriggerMode::Edge;
    let g = Gicr::new(&mut base, &mut sgi, 3, 4, &triggers, Vec::new());
    assert_eq!(g.vcpu_id, 3);
    // TYPER: AFF0 = vCPU id, Last set (vCPU 3 of 4)
    assert_eq!(perform_mmio_read(&base, 0x10, AccessWidth::Qword), 3 | 0x10);
    assert_eq!(perform_mmio_read(&base, 0x18, AccessWidth::Dword), 0);
    assert_eq!(perform_mmio_read(&base, 0x0, AccessWidth::Dword), 0);
    assert_eq!(perform_mmio_read(&base, 0xfe8, AccessWidth::Dword), 0x3b);
    // SGIs edge as the architecture demands, PPI 17 edge from the host chip
    assert_eq!(perform_mmio_read(&sgi, 0xc00, AccessWidth::Dword), 0xaaaa_aaaa);
    assert_eq!(perform_mmio_read(&sgi, 0xc04, AccessWidth::Dword), 0x2 << 2);
    assert_eq!(perform_mmio_read(&sgi, 0x0, AccessWidth::Dword), 0xffff_ffff);
    assert_eq!(perform_mmio_read(&sgi, 0x400, AccessWidth::Dword), 0xa0a0_a0a0);
    assert_eq!(perform_mmio_read(&sgi, 0x41c, AccessWidth::Dword), 0xa0a0_a0a0);
    assert_eq!(perform_mmio_read(&sgi, 0x180, AccessWidth::Qword), 0xffff_ffff_ffff_ffff);
    assert_eq!(perform_mmio_read(&sgi, 0xfe8, AccessWidth::Dword), 0x3b);
}

#[test]
fn gicr_not_last_for_lower_vcpus() {
    let mut base = MmioPage::new(0x1000);
    let mut sgi = MmioPage::new(0x1000);
    let triggers = all_level();
    Gicr::new(&mut base, &mut sgi, 1, 4, &triggers, Vec::new());
    assert_eq!(perform_mmio_read(&base, 0x10, AccessWidth::Qword), 1);
}

#[test]
fn mmio_write_read_round_trip() {
    let mut page = MmioPage::new(0x100);
    perform_mmio_write(&mut page, 0x10, AccessWidth::Qword, 0x1122_3344_5566_7788);
    assert_eq!(
        perform_mmio_read(&page, 0x10, AccessWidth::Qword),
        0x1122_3344_5566_7788
    );
    // narrower widths truncate the stored value
    perform_mmio_write(&mut page, 0x20, AccessWidth::Word, 0xabcdef);
    assert_eq!(perform_mmio_read(&page, 0x20, AccessWidth::Word), 0xcdef);
    assert_eq!(perform_mmio_read(&page, 0x20, AccessWidth::Byte), 0xef);
    // bytes are little-endian
    assert_eq!(perform_mmio_read(&page, 0x11, AccessWidth::Byte), 0x77);
}

#[test]
fn timer_value_write_schedules_one_shot() {
    let tval = SysCntpTvalEl0::new();
    let req = tval.handle_write(1_000_000, 250);
    assert_eq!(req.deadline, 1_000_250);
    assert_eq!(req.vector, 30);
}

#[test]
fn counter_read_passes_through() {
    let cnt = SysCntpctEl0::new();
    assert_eq!(cnt.handle_read(0xdead_beef), 0xdead_beef);
}
