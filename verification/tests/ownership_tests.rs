use vgic::host::GicPage;
use vgic::vgicdv3::VGicD;
use vgic::vgicrv3::LpiPropTable;
use vgic::AccessWidth;

#[test]
fn one_owner_per_irq() {
    // two guests sharing one physical Distributor: the hypervisor assigns
    // each SPI to at most one of them, and each guest sees only its own
    let mut host = GicPage::new(0x10000);
    let mut a = VGicD::new(0, None, 1, 0);
    let mut b = VGicD::new(0, None, 1, 0);
    a.assign_irq(40, 0, (0, 0, 0, 0), &mut host);
    b.assign_irq(41, 1, (0, 0, 0, 1), &mut host);
    assert!(a.is_irq_assigned(40) && !a.is_irq_assigned(41));
    assert!(b.is_irq_assigned(41) && !b.is_irq_assigned(40));
    // host enable word 1 covers IRQs 32..64, bits 8 and 9
    host.write(0x104, AccessWidth::Dword, 0x300);
    assert_eq!(a.handle_read(&host, 0x104, AccessWidth::Dword).unwrap(), 0x100);
    assert_eq!(b.handle_read(&host, 0x104, AccessWidth::Dword).unwrap(), 0x200);
    // guest A cannot clear guest B's enable bit
    a.handle_write(&mut host, 0x184, AccessWidth::Dword, 0xffff_ffff).unwrap();
    assert_eq!(host.read(0x104, AccessWidth::Dword), 0x200);
}

#[test]
fn enabled_lpi_stays_enabled() {
    let mut frames: Vec<GicPage> = Vec::new();
    let mut lpt = LpiPropTable::new(13 << 19, 0, 0, 0, &mut frames);
    lpt.enable_one_lpi(7);
    assert_eq!(lpt.byte_at(7), 1);
    // enabling other LPIs never clears an enabled one
    lpt.enable_one_lpi(8);
    lpt.enable_one_lpi(7);
    assert_eq!(lpt.byte_at(7), 1);
    assert_eq!(lpt.byte_at(8), 1);
    // an index beyond the table is ignored
    lpt.enable_one_lpi(0x10_0000);
    assert_eq!(lpt.len(), 8192);
}
