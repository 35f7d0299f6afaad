use vgic::interrupt::{InterruptStatus, InterruptType, TriggerMode, VgicInt};
use vgic::list_register::ListRegister;
use vgic::registers::GicRegister;
use vgic::vgic::Vgic;
use vgic::vgicd::Vgicd;

#[test]
fn from_addr_classifies() {
    assert_eq!(GicRegister::from_addr(0x0000), Some(GicRegister::GicdCtlr));
    assert_eq!(GicRegister::from_addr(0x0004), Some(GicRegister::GicdTyper));
    assert_eq!(GicRegister::from_addr(0x0008), Some(GicRegister::GicdIidr));
    assert_eq!(GicRegister::from_addr(0x0100), Some(GicRegister::GicdIsenabler(0)));
    assert_eq!(GicRegister::from_addr(0x017c), Some(GicRegister::GicdIsenabler(31)));
    assert_eq!(GicRegister::from_addr(0x0400), Some(GicRegister::GicdIpriorityr(0)));
    assert_eq!(GicRegister::from_addr(0x0800), Some(GicRegister::GicdItargetsr(0)));
    assert_eq!(GicRegister::from_addr(0x0c00), Some(GicRegister::GicdIcfgr(0)));
    // the PPI status range swallows most of the SPI status range
    assert_eq!(GicRegister::from_addr(0x0d04), Some(GicRegister::GicdPpisr(1)));
    assert_eq!(GicRegister::from_addr(0x2000), None);
}

#[test]
fn vgicd_ctrlr_write_and_read() {
    let mut v = Vgic::new(0x0102_0304, 0x0403_0201);
    assert_eq!(v.handle_read32(0x0).unwrap(), 0);
    v.handle_write32(0x0, 0x1);
    assert_eq!(v.handle_read32(0x0).unwrap(), 0x1);
    assert_eq!(v.handle_read32(0x4).unwrap(), 0x0102_0304);
    assert_eq!(v.handle_read32(0x8).unwrap(), 0x0403_0201);
}

#[test]
fn isenabler_write_then_read() {
    let mut v = Vgic::new(0, 0);
    v.handle_write32(0x104, 0x0000_0022);
    assert_eq!(v.handle_read32(0x104).unwrap(), 0x0000_0022);
    // writing zero bits disables nothing: the word is a set-style register
    v.handle_write32(0x104, 0x0000_0001);
    assert_eq!(v.handle_read32(0x104).unwrap(), 0x0000_0023);
    // descriptors carry the enables: IRQ 33 = word 1 bit 1
    assert!(v.fetch_irq(33).get_enable());
    assert!(!v.fetch_irq(34).get_enable());
}

#[test]
fn subword_reads_extract_bytes() {
    let mut v = Vgic::new(0, 0);
    v.handle_write32(0x0, 0x0000_1234);
    assert_eq!(v.handle_read16(0x0).unwrap(), 0x1234);
    assert_eq!(v.handle_read8(0x0).unwrap(), 0x34);
    // an unaligned byte address names no register, so it reads as zero
    assert_eq!(v.handle_read8(0x1).unwrap(), 0);
}

#[test]
fn unknown_v2_offsets_read_zero() {
    let v = Vgic::new(0, 0);
    assert_eq!(v.handle_read32(0x2000).unwrap(), 0);
    assert_eq!(v.handle_read32(0x0c00).unwrap(), 0);
}

#[test]
fn vgic_int_descriptor_fields() {
    let mut i = VgicInt::new(20, 1);
    assert_eq!(i.get_interrupt_type(), InterruptType::PPI);
    assert_eq!(i.get_vcpu_id(), 1);
    assert!(!i.get_enable());
    assert!(!i.inject_irq());
    i.set_enable(true);
    assert!(i.inject_irq());
    i.set_priority(0xa0);
    assert_eq!(i.get_priority(), 0xa0);
    i.set_vcpu_id(2);
    assert_eq!(i.get_vcpu_id(), 2);
    i.set_status(InterruptStatus::Pending);
    assert_eq!(i.get_status(), InterruptStatus::Pending);
    i.set_trigger_mode(TriggerMode::Level);
    assert_eq!(i.get_trigger_mode(), TriggerMode::Level);
    assert_eq!(VgicInt::new(3, 0).get_interrupt_type(), InterruptType::SGI);
    assert_eq!(VgicInt::new(100, 0).get_interrupt_type(), InterruptType::SPI);
}

#[test]
fn vgicd_inject_follows_enable() {
    let mut d = Vgicd::new(0, 0);
    assert!(!d.inject_irq(40));
    d.vgicd_isenabler_write(1, 1 << 8);
    assert!(d.inject_irq(40));
    assert_eq!(d.fetch_irq(40).get_enable(), true);
    assert_eq!(d.vgicd_isenabler_read(1), 1 << 8);
}

#[test]
fn list_register_holds_word() {
    let lr = ListRegister::new(0x8000_0040);
    assert_eq!(lr.get(), 0x8000_0040);
}

#[test]
fn from_addr_range_edges() {
    // 0xd80 is past the PPI status range but still in the SPI status range
    assert_eq!(GicRegister::from_addr(0xd80), Some(GicRegister::GicdSpisr(31)));
    assert_eq!(GicRegister::from_addr(0xffc), None);
    assert_eq!(GicRegister::from_addr(0x0f00), Some(GicRegister::GicdSgir(0)));
}
