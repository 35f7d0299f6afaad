use vgic::host::GicPage;
use vgic::vgicdv3::VGicD;
use vgic::AccessWidth;

fn guest_a() -> VGicD {
    let mut d = VGicD::new(0x800_0000, None, 2, 0x9000_0000);
    let mut host = GicPage::new(0x10000);
    d.assign_irq(32, 0, (0, 0, 0, 0), &mut host);
    d.assign_irq(34, 0, (0, 0, 0, 0), &mut host);
    d
}

#[test]
fn ownership_enforcement_read() {
    // guest A owns SPIs {32, 34}; host ISENABLER[1] is all-ones
    let d = guest_a();
    let mut host = GicPage::new(0x10000);
    host.write(0x104, AccessWidth::Dword, 0xffff_ffff);
    let v = d.handle_read(&host, 0x800_0000 + 0x104, AccessWidth::Dword).unwrap();
    assert_eq!(v, 0x0000_0005);
}

#[test]
fn ownership_enforcement_write() {
    // same setup, host ISENABLER[1] zero; a full-ones write only lands on
    // the owned bits
    let d = guest_a();
    let mut host = GicPage::new(0x10000);
    d.handle_write(&mut host, 0x800_0000 + 0x104, AccessWidth::Dword, 0xffff_ffff).unwrap();
    assert_eq!(host.read(0x104, AccessWidth::Dword), 0x0000_0005);
}

#[test]
fn unowned_priority_field_reads_zero() {
    let d = guest_a();
    let mut host = GicPage::new(0x10000);
    // host priority bytes for IRQs 32..36
    host.write(0x420, AccessWidth::Dword, 0xa0a0_a0a0);
    // IRQ 33 is not owned: its byte is hidden, 32 and 34 show through
    let v = d.handle_read(&host, 0x800_0000 + 0x420, AccessWidth::Dword).unwrap();
    assert_eq!(v, 0x00a0_00a0);
}

#[test]
fn rmw_write_keeps_unowned_priority() {
    let d = guest_a();
    let mut host = GicPage::new(0x10000);
    host.write(0x420, AccessWidth::Dword, 0x1111_1111);
    d.handle_write(&mut host, 0x800_0000 + 0x420, AccessWidth::Dword, 0xffff_ffff).unwrap();
    // owned bytes (IRQ 32 and 34) took the write, the others kept 0x11
    assert_eq!(host.read(0x420, AccessWidth::Dword), 0x11ff_11ff);
}

#[test]
fn poke_write_idempotent() {
    let d = guest_a();
    let mut host1 = GicPage::new(0x10000);
    let mut host2 = GicPage::new(0x10000);
    d.handle_write(&mut host1, 0x800_0000 + 0x104, AccessWidth::Dword, 0xdead_beef).unwrap();
    d.handle_write(&mut host2, 0x800_0000 + 0x104, AccessWidth::Dword, 0xdead_beef).unwrap();
    d.handle_write(&mut host2, 0x800_0000 + 0x104, AccessWidth::Dword, 0xdead_beef).unwrap();
    assert_eq!(
        host1.read(0x104, AccessWidth::Dword),
        host2.read(0x104, AccessWidth::Dword)
    );
}

#[test]
fn disable_enable_restores_owned() {
    let d = guest_a();
    let mut host = GicPage::new(0x10000);
    // owned IRQs enabled, plus one unowned bit the guest must not touch
    host.write(0x104, AccessWidth::Dword, 0x0000_0045);
    d.handle_write(&mut host, 0x800_0000 + 0x184, AccessWidth::Dword, 0xffff_ffff).unwrap();
    // unowned bit 6 survives the disable, owned bits are clear
    assert_eq!(host.read(0x104, AccessWidth::Dword), 0x0000_0040);
    d.handle_write(&mut host, 0x800_0000 + 0x104, AccessWidth::Dword, 0xffff_ffff).unwrap();
    assert_eq!(host.read(0x104, AccessWidth::Dword), 0x0000_0045);
}

#[test]
fn irouter_passthrough_only_when_owned() {
    let d = guest_a();
    let mut host = GicPage::new(0x10000);
    // IROUTER[32] at 0x6000 + 32*8
    d.handle_write(&mut host, 0x800_0000 + 0x6100, AccessWidth::Qword, 0x1_0000_0001).unwrap();
    assert_eq!(host.read(0x6100, AccessWidth::Qword), 0x1_0000_0001);
    let v = d.handle_read(&host, 0x800_0000 + 0x6100, AccessWidth::Qword).unwrap();
    assert_eq!(v, 0x1_0000_0001);
    // IRQ 33 is unowned: the write is discarded, the read shows zero
    d.handle_write(&mut host, 0x800_0000 + 0x6108, AccessWidth::Qword, 0x2222).unwrap();
    assert_eq!(host.read(0x6108, AccessWidth::Qword), 0);
    assert_eq!(
        d.handle_read(&host, 0x800_0000 + 0x6108, AccessWidth::Qword).unwrap(),
        0
    );
}

#[test]
fn typer_read_is_rewritten() {
    let d = VGicD::new(0, None, 4, 0);
    let mut host = GicPage::new(0x10000);
    // host TYPER: SecurityExtn (bit 10) set, CPUNumber field (bits 7:5) = 7
    host.write(0x4, AccessWidth::Dword, (1 << 10) | (7 << 5) | 0x1f);
    let v = d.handle_read(&host, 0x4, AccessWidth::Dword).unwrap();
    // SecurityExtn cleared, CPUNumber rewritten to vCPU count - 1 = 3
    assert_eq!(v, (3 << 5) | 0x1f);
}

#[test]
fn irq_class_boundaries() {
    let d = VGicD::new(0, None, 1, 0);
    assert!(d.is_irq_sgi(0));
    assert!(d.is_irq_sgi(15));
    assert!(!d.is_irq_sgi(16));
    // 16..31 are PPIs: neither SGI nor SPI
    assert!(!d.is_irq_spi(16));
    assert!(!d.is_irq_spi(31));
    assert!(d.is_irq_spi(32));
    assert!(d.is_irq_spi(1019));
    assert!(!d.is_irq_spi(1020));
}

#[test]
fn assign_irq_boundaries() {
    let mut d = VGicD::new(0, None, 1, 0);
    let mut host = GicPage::new(0x10000);
    for irq in [0u32, 15, 16, 31, 32, 1019, 1020, 1023] {
        assert!(!d.is_irq_assigned(irq));
        d.assign_irq(irq, 3, (0, 0, 0, 1), &mut host);
        assert!(d.is_irq_assigned(irq));
    }
    assert!(!d.is_irq_assigned(1));
    // the routing write for IRQ 32 landed in the host IROUTER word
    assert_eq!(
        host.read(0x6000 + 32 * 8, AccessWidth::Qword),
        (1u64 << 31) | 1
    );
    // and the target byte got the CPU bit
    assert_eq!(host.read(0x800 + 32, AccessWidth::Byte), 1 << 3);
}

#[test]
fn access_widths_across_enable_family() {
    let mut d = VGicD::new(0, None, 1, 0);
    let mut host = GicPage::new(0x10000);
    for irq in 0..1024u32 {
        d.assign_irq(irq, 0, (0, 0, 0, 0), &mut host);
    }
    let mut host = GicPage::new(0x10000);
    host.write(0x100, AccessWidth::Qword, 0xffff_ffff_ffff_ffff);
    host.write(0x178, AccessWidth::Qword, 0xffff_ffff_ffff_ffff);
    // start of the family, widths 1, 2, 4, 8
    assert_eq!(d.handle_read(&host, 0x100, AccessWidth::Byte).unwrap(), 0xff);
    assert_eq!(d.handle_read(&host, 0x100, AccessWidth::Word).unwrap(), 0xffff);
    assert_eq!(
        d.handle_read(&host, 0x100, AccessWidth::Dword).unwrap(),
        0xffff_ffff
    );
    assert_eq!(
        d.handle_read(&host, 0x100, AccessWidth::Qword).unwrap(),
        0xffff_ffff_ffff_ffff
    );
    // middle and last valid offsets
    assert_eq!(d.handle_read(&host, 0x140, AccessWidth::Byte).unwrap(), 0);
    assert_eq!(d.handle_read(&host, 0x17f, AccessWidth::Byte).unwrap(), 0xff);
    assert_eq!(
        d.handle_read(&host, 0x178, AccessWidth::Qword).unwrap(),
        0xffff_ffff_ffff_ffff
    );
}

#[test]
fn unknown_offset_passes_through() {
    let d = VGicD::new(0, None, 1, 0);
    let mut host = GicPage::new(0x10000);
    d.handle_write(&mut host, 0xf00, AccessWidth::Dword, 0x1234_5678).unwrap();
    assert_eq!(d.handle_read(&host, 0xf00, AccessWidth::Dword).unwrap(), 0x1234_5678);
}

#[test]
fn read_only_registers_ignore_writes() {
    let d = VGicD::new(0, None, 1, 0);
    let mut host = GicPage::new(0x10000);
    d.handle_write(&mut host, 0x0, AccessWidth::Dword, 0xffff_ffff).unwrap();
    d.handle_write(&mut host, 0xffe8, AccessWidth::Dword, 0xffff_ffff).unwrap();
    assert_eq!(host.read(0x0, AccessWidth::Dword), 0);
    assert_eq!(host.read(0xffe8, AccessWidth::Dword), 0);
}
