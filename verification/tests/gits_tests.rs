use vgic::gits::{ring_ptr_update, Cmdq, Gits};
use vgic::host::GicPage;
use vgic::mem::{perform_mmio_read, perform_mmio_write, MmioPage};
use vgic::vgicrv3::LpiPropTable;
use vgic::{AccessWidth, VgicError};

// a property table sized from IDbits = 13: (1 << 14) - 8192 = 8192 LPIs
fn small_lpt() -> LpiPropTable {
    let mut frames: Vec<GicPage> = Vec::new();
    LpiPropTable::new(13 << 19, 0x8000_0000, 0, 0x4000_0000, &mut frames)
}

fn its_setup() -> (MmioPage, Cmdq, LpiPropTable, MmioPage) {
    let mut host = MmioPage::new(0x20000);
    let cmdq = Cmdq::new(0xa000_0000, 0x5000_0000, 0x5001_0000, 0x5002_0000, &mut host);
    let lpt = small_lpt();
    let guest_ring = MmioPage::new(0x10000);
    (host, cmdq, lpt, guest_ring)
}

#[test]
fn root_cbaser_passes_through_and_shadows() {
    let (mut host, mut cmdq, mut lpt, guest_ring) = its_setup();
    let mut gits = Gits::new(0x801_0000, None, 0xa000_0000, true);
    gits.handle_write(
        &mut host,
        &mut cmdq,
        &mut lpt,
        &guest_ring,
        0x801_0000 + 0x80,
        AccessWidth::Qword,
        0x0000_0001_2345_6000,
    )
    .unwrap();
    assert_eq!(perform_mmio_read(&host, 0x80, AccessWidth::Qword), 0x0000_0001_2345_6000);
    assert_eq!(gits.regs.cbaser, 0x0000_0001_2345_6000);
}

#[test]
fn nonroot_cbaser_shadow_only() {
    let (mut host, mut cmdq, mut lpt, guest_ring) = its_setup();
    let host_before = perform_mmio_read(&host, 0x80, AccessWidth::Qword);
    let mut gits = Gits::new(0x801_0000, None, 0xa000_0000, false);
    gits.handle_write(
        &mut host,
        &mut cmdq,
        &mut lpt,
        &guest_ring,
        0x801_0000 + 0x80,
        AccessWidth::Qword,
        0x0000_0001_2345_6000,
    )
    .unwrap();
    assert_eq!(perform_mmio_read(&host, 0x80, AccessWidth::Qword), host_before);
    assert_eq!(gits.regs.cbaser, 0x0000_0001_2345_6000);
    assert_eq!(
        gits.handle_read(&host, 0x801_0000 + 0x80, AccessWidth::Qword).unwrap(),
        0x0000_0001_2345_6000
    );
}

#[test]
fn mapi_translation() {
    let (mut host, mut cmdq, mut lpt, mut guest_ring) = its_setup();
    let mut gits = Gits::new(0x801_0000, None, 0xa000_0000, false);
    // one MAPI command: device 0x1234, event = intid = 0x2001 (LPI 8193)
    perform_mmio_write(&mut guest_ring, 0x00, AccessWidth::Qword, 0x0000_1234_0000_000b);
    perform_mmio_write(&mut guest_ring, 0x08, AccessWidth::Qword, 0x0000_0000_0000_2001);
    perform_mmio_write(&mut guest_ring, 0x10, AccessWidth::Qword, 0x0000_0000_0000_0005);
    perform_mmio_write(&mut guest_ring, 0x18, AccessWidth::Qword, 0);
    gits.handle_write(
        &mut host,
        &mut cmdq,
        &mut lpt,
        &guest_ring,
        0x801_0000 + 0x88,
        AccessWidth::Qword,
        0x20,
    )
    .unwrap();
    assert_eq!(lpt.byte_at(1), 1);
    // the shadow ring holds the guest's 32 bytes word for word
    assert_eq!(perform_mmio_read(&cmdq.buf, 0x00, AccessWidth::Qword), 0x0000_1234_0000_000b);
    assert_eq!(perform_mmio_read(&cmdq.buf, 0x08, AccessWidth::Qword), 0x2001);
    assert_eq!(perform_mmio_read(&cmdq.buf, 0x10, AccessWidth::Qword), 0x5);
    assert_eq!(perform_mmio_read(&cmdq.buf, 0x18, AccessWidth::Qword), 0);
    assert_eq!(perform_mmio_read(&host, 0x88, AccessWidth::Qword), 0x20);
    assert_eq!(gits.regs.creadr, 0x20);
    // the queue has drained: both pointers and both host registers agree
    assert_eq!(cmdq.readr, cmdq.writer);
    assert_eq!(cmdq.writer, 0x20);
    assert_eq!(perform_mmio_read(&host, 0x90, AccessWidth::Qword), 0x20);
}

#[test]
fn mapti_enables_intid() {
    let (mut host, mut cmdq, mut lpt, mut guest_ring) = its_setup();
    // MAPTI: opcode 0x0a, event in word1 low half, intid 8195 in word1 high
    perform_mmio_write(&mut guest_ring, 0x00, AccessWidth::Qword, 0x0000_0001_0000_000a);
    perform_mmio_write(&mut guest_ring, 0x08, AccessWidth::Qword, (8195u64 << 32) | 7);
    perform_mmio_write(&mut guest_ring, 0x10, AccessWidth::Qword, 1);
    perform_mmio_write(&mut guest_ring, 0x18, AccessWidth::Qword, 0);
    cmdq.insert_cmd(&guest_ring, &mut host, &mut lpt, 0, 0x20);
    assert_eq!(lpt.byte_at(3), 1);
    // an unrelated LPI stays disabled
    assert_eq!(lpt.byte_at(4), 0);
}

#[test]
fn ring_wrap_batch() {
    let (mut host, mut cmdq, mut lpt, mut guest_ring) = its_setup();
    // two commands straddling the 64-KiB boundary of the guest ring
    perform_mmio_write(&mut guest_ring, 0xffe0, AccessWidth::Qword, 0x0b);
    perform_mmio_write(&mut guest_ring, 0xffe8, AccessWidth::Qword, 8192 + 100);
    perform_mmio_write(&mut guest_ring, 0x0000, AccessWidth::Qword, 0x0b);
    perform_mmio_write(&mut guest_ring, 0x0008, AccessWidth::Qword, 8192 + 101);
    // the shadow ring is also near its end
    cmdq.readr = 0xffe0;
    cmdq.writer = 0xffe0;
    let r = cmdq.insert_cmd(&guest_ring, &mut host, &mut lpt, 0xffe0, 0x20);
    assert_eq!(r, 0x20);
    assert_eq!(cmdq.writer, 0x20);
    assert_eq!(cmdq.readr, 0x20);
    assert_eq!(lpt.byte_at(100), 1);
    assert_eq!(lpt.byte_at(101), 1);
    // first command landed in the last slot, second wrapped to slot zero
    assert_eq!(perform_mmio_read(&cmdq.buf, 0xffe8, AccessWidth::Qword), 8192 + 100);
    assert_eq!(perform_mmio_read(&cmdq.buf, 0x0008, AccessWidth::Qword), 8192 + 101);
    assert_eq!(perform_mmio_read(&host, 0x88, AccessWidth::Qword), 0x20);
    assert_eq!(perform_mmio_read(&host, 0x90, AccessWidth::Qword), 0x20);
}

#[test]
fn creadr_write_is_fatal() {
    let (mut host, mut cmdq, mut lpt, guest_ring) = its_setup();
    let mut gits = Gits::new(0x801_0000, None, 0xa000_0000, false);
    let r = gits.handle_write(
        &mut host,
        &mut cmdq,
        &mut lpt,
        &guest_ring,
        0x801_0000 + 0x90,
        AccessWidth::Qword,
        0,
    );
    assert_eq!(r, Err(VgicError::HardwareOwnedRegister));
}

#[test]
fn nonroot_table_basers_are_illusory() {
    let (mut host, mut cmdq, mut lpt, guest_ring) = its_setup();
    let host_dt = perform_mmio_read(&host, 0x100, AccessWidth::Qword);
    let mut gits = Gits::new(0x801_0000, None, 0xa000_0000, false);
    gits.handle_write(
        &mut host,
        &mut cmdq,
        &mut lpt,
        &guest_ring,
        0x801_0000 + 0x100,
        AccessWidth::Qword,
        0xabcd_ef01_2345_6789,
    )
    .unwrap();
    // the host's device-table word is untouched
    assert_eq!(perform_mmio_read(&host, 0x100, AccessWidth::Qword), host_dt);
    // the guest reads its own word back, truncated to the access width
    assert_eq!(
        gits.handle_read(&host, 0x801_0000 + 0x100, AccessWidth::Qword).unwrap(),
        0xabcd_ef01_2345_6789
    );
    assert_eq!(
        gits.handle_read(&host, 0x801_0000 + 0x100, AccessWidth::Dword).unwrap(),
        0x2345_6789
    );
}

#[test]
fn cmdq_new_programs_host_its() {
    let mut host = MmioPage::new(0x20000);
    // pretend the host ITS was enabled with some BASER attributes
    perform_mmio_write(&mut host, 0x0, AccessWidth::Qword, 1);
    let cmdq = Cmdq::new(0xa000_0000, 0x5000_0000, 0x5001_0000, 0x5002_0000, &mut host);
    // the ITS is disabled and its command queue now points at the shadow ring
    assert_eq!(perform_mmio_read(&host, 0x0, AccessWidth::Qword), 0);
    assert_eq!(
        perform_mmio_read(&host, 0x80, AccessWidth::Qword),
        0xb800_0000_0000_040f | 0x5000_0000
    );
    assert_eq!(perform_mmio_read(&host, 0x88, AccessWidth::Qword), 0);
    // the dummy tables are valid, cacheable, shareable, 16 frames each
    let dt = perform_mmio_read(&host, 0x100, AccessWidth::Qword);
    assert_eq!(dt, 0x5001_0000u64 | (1 << 63) | (0x7 << 59) | (0x1 << 10) | 15);
    assert_eq!(cmdq.readr, 0);
    assert_eq!(cmdq.writer, 0);
}

#[test]
fn ring_ptr_update_wraps() {
    assert_eq!(ring_ptr_update(0xffff), 0xffff);
    assert_eq!(ring_ptr_update(0x10000), 0);
    assert_eq!(ring_ptr_update(0x10020), 0x20);
}

#[test]
fn zero_doorbell_is_ignored() {
    let (mut host, mut cmdq, mut lpt, guest_ring) = its_setup();
    let mut gits = Gits::new(0x801_0000, None, 0xa000_0000, false);
    gits.handle_write(
        &mut host,
        &mut cmdq,
        &mut lpt,
        &guest_ring,
        0x801_0000 + 0x88,
        AccessWidth::Qword,
        0,
    )
    .unwrap();
    assert_eq!(gits.regs.cwriter, 0);
    assert_eq!(gits.regs.creadr, 0);
    assert_eq!(cmdq.writer, 0);
}

#[test]
fn two_batches_advance_the_ring() {
    let (mut host, mut cmdq, mut lpt, mut guest_ring) = its_setup();
    let mut gits = Gits::new(0x801_0000, None, 0xa000_0000, false);
    perform_mmio_write(&mut guest_ring, 0x00, AccessWidth::Qword, 0x0b);
    perform_mmio_write(&mut guest_ring, 0x08, AccessWidth::Qword, 8192 + 1);
    perform_mmio_write(&mut guest_ring, 0x20, AccessWidth::Qword, 0x0b);
    perform_mmio_write(&mut guest_ring, 0x28, AccessWidth::Qword, 8192 + 2);
    gits.handle_write(&mut host, &mut cmdq, &mut lpt, &guest_ring, 0x801_0000 + 0x88, AccessWidth::Qword, 0x20).unwrap();
    gits.handle_write(&mut host, &mut cmdq, &mut lpt, &guest_ring, 0x801_0000 + 0x88, AccessWidth::Qword, 0x40).unwrap();
    assert_eq!(gits.regs.creadr, 0x40);
    assert_eq!(cmdq.writer, 0x40);
    assert_eq!(lpt.byte_at(1), 1);
    assert_eq!(lpt.byte_at(2), 1);
    // the guest observes completion through the shadow read pointer
    assert_eq!(
        gits.handle_read(&host, 0x801_0000 + 0x90, AccessWidth::Qword).unwrap(),
        0x40
    );
}

#[test]
fn ctrl_and_unknown_pass_through() {
    let (mut host, mut cmdq, mut lpt, guest_ring) = its_setup();
    let mut gits = Gits::new(0x801_0000, None, 0xa000_0000, false);
    gits.handle_write(&mut host, &mut cmdq, &mut lpt, &guest_ring, 0x801_0000 + 0x0, AccessWidth::Qword, 1).unwrap();
    assert_eq!(gits.handle_read(&host, 0x801_0000 + 0x0, AccessWidth::Qword).unwrap(), 1);
    gits.handle_write(&mut host, &mut cmdq, &mut lpt, &guest_ring, 0x801_0000 + 0x8, AccessWidth::Qword, 0x77).unwrap();
    assert_eq!(gits.handle_read(&host, 0x801_0000 + 0x8, AccessWidth::Qword).unwrap(), 0x77);
}
