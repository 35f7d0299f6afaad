use vgic::host::GicPage;
use vgic::vgicrv3::{enable_ipi, LpiPropTable, VGicR};
use vgic::AccessWidth;

fn small_lpt() -> LpiPropTable {
    let mut frames: Vec<GicPage> = Vec::new();
    LpiPropTable::new(13 << 19, 0x8000_0000, 0, 0x4000_0000, &mut frames)
}

#[test]
fn gicr_last_bit_only_on_highest_vcpu() {
    // a guest with 4 vCPUs reads GICR_TYPER from each Redistributor
    for cpu in 0..4usize {
        let r = VGicR::new(0x800_2000, None, cpu, 4, 0x9100_0000);
        let host = GicPage::new(0x20000);
        let v = r.handle_read(&host, 0x800_2000 + 0x8, AccessWidth::Qword).unwrap();
        if cpu == 3 {
            assert_eq!(v & 0x10, 0x10);
        } else {
            assert_eq!(v & 0x10, 0);
        }
    }
}

#[test]
fn propbaser_shadow_round_trip() {
    let mut r = VGicR::new(0, None, 0, 1, 0);
    let mut host = GicPage::new(0x20000);
    let mut lpt = small_lpt();
    r.handle_write(&mut host, &mut lpt, 0x70, AccessWidth::Qword, 0x1234_5678_9abc_def0).unwrap();
    assert_eq!(
        r.handle_read(&host, 0x70, AccessWidth::Qword).unwrap(),
        0x1234_5678_9abc_def0
    );
    // nothing reached the host frame
    assert_eq!(host.read(0x70, AccessWidth::Qword), 0);
}

#[test]
fn invlpir_enables_one_lpi() {
    let mut r = VGicR::new(0, None, 0, 1, 0);
    let mut host = GicPage::new(0x20000);
    let mut lpt = small_lpt();
    assert_eq!(lpt.byte_at(42), 0);
    r.handle_write(&mut host, &mut lpt, 0xa0, AccessWidth::Qword, 8192 + 42).unwrap();
    assert_eq!(lpt.byte_at(42), 1);
    // a value below the LPI base is ignored
    r.handle_write(&mut host, &mut lpt, 0xa0, AccessWidth::Qword, 100).unwrap();
    assert_eq!(lpt.byte_at(100), 0);
}

#[test]
fn icenabler_keeps_maintenance_interrupt() {
    let mut r = VGicR::new(0, None, 0, 1, 0);
    let mut host = GicPage::new(0x20000);
    let mut lpt = small_lpt();
    // all private interrupts enabled, the maintenance line among them
    host.write(0x10100, AccessWidth::Dword, 0xffff_ffff);
    r.handle_write(&mut host, &mut lpt, 0x10180, AccessWidth::Dword, 0xffff_ffff).unwrap();
    // everything disabled except IRQ 25
    assert_eq!(host.read(0x10100, AccessWidth::Dword), 1 << 25);
}

#[test]
fn syncr_reads_zero() {
    let r = VGicR::new(0, None, 0, 1, 0);
    let mut host = GicPage::new(0x20000);
    host.write(0xc0, AccessWidth::Dword, 0x5555);
    assert_eq!(r.handle_read(&host, 0xc0, AccessWidth::Dword).unwrap(), 0);
}

#[test]
fn sgi_frame_passthrough() {
    let mut r = VGicR::new(0, None, 0, 1, 0);
    let mut host = GicPage::new(0x20000);
    let mut lpt = small_lpt();
    r.handle_write(&mut host, &mut lpt, 0x10100, AccessWidth::Dword, 0x00f0).unwrap();
    assert_eq!(r.handle_read(&host, 0x10100, AccessWidth::Dword).unwrap(), 0x00f0);
    // the clear-enable view shows the same backing bits
    assert_eq!(r.handle_read(&host, 0x10180, AccessWidth::Dword).unwrap(), 0x00f0);
}

#[test]
fn lpt_programs_every_redistributor() {
    let mut frames: Vec<GicPage> = Vec::new();
    for _ in 0..3 {
        frames.push(GicPage::new(0x20000));
    }
    let lpt = LpiPropTable::new(13 << 19, 0x9100_0000, 3, 0x4000_0000, &mut frames);
    assert_eq!(lpt.frame, 0x4000_0000);
    assert_eq!(lpt.len(), 8192);
    for f in frames.iter() {
        assert_eq!(f.read(0x70, AccessWidth::Qword), 0x4000_0000 | 0x78f);
    }
}

#[test]
fn vgicr_new_places_frame() {
    let r = VGicR::new(0x800_2000, None, 2, 4, 0x9100_0000);
    assert_eq!(r.cpu_id, 2);
    assert_eq!(r.size, 0x20000);
    assert_eq!(r.host_gicr_base_this_cpu, 0x9100_0000 + 2 * 0x20000);
    assert!(!r.is_last);
    assert_eq!(r.regs.propbaser, 0);
}

#[test]
fn enable_ipi_brings_up_both_lines() {
    let mut host = GicPage::new(0x20000);
    // host priority bytes for IRQs 4..7 and 24..27 hold the reset default
    host.write(0x10404, AccessWidth::Dword, 0xa0a0_a0a0);
    host.write(0x10418, AccessWidth::Dword, 0xa0a0_a0a0);
    enable_ipi(&mut host, 7);
    // the IPI SGI is in Group 1
    assert_eq!(host.read(0x10080, AccessWidth::Dword), 1 << 7);
    // both lines enabled, nothing else
    assert_eq!(host.read(0x10100, AccessWidth::Dword), (1 << 7) | (1 << 25));
    // the two priority bytes were rewritten to 0x01, their neighbours kept
    assert_eq!(host.read(0x10404, AccessWidth::Dword), 0x01a0_a0a0);
    assert_eq!(host.read(0x10418, AccessWidth::Dword), 0xa0a0_01a0);
}
