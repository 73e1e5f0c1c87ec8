use riscv_chip::{
    Bus, CsrAddresses, CsrHandler, HardwareZeroRegister, MemoryAccess, MemoryAccess16,
    MemoryAccess32, MotherboardMemory, Ram1m, Ram512k, Register, Register32, RegisterSlot, Rom1m,
};

#[test]
fn bus_holds_last_value_and_clears() {
    let mut bus = Bus::new();
    assert_eq!(bus.read_value(), 0);
    bus.enable_value(7);
    bus.enable_value(0xDEAD_BEEF);
    assert_eq!(bus.read_value(), 0xDEAD_BEEF);
    bus.disable();
    assert_eq!(bus.read_value(), 0);
}

#[test]
fn register_drives_and_latches() {
    let mut bus = Bus::new();
    let mut r = Register::new();
    assert_eq!(r.get_value(), 0);
    bus.enable_value(42);
    r.set_from_bus(&bus);
    assert_eq!(r.get_value(), 42);
    let mut other = Bus::new();
    r.enable_on_bus(&mut other);
    assert_eq!(other.read_value(), 42);
    r.disable_on_bus(&mut other);
    assert_eq!(other.read_value(), 0);
}

#[test]
fn zero_register_discards_writes() {
    let mut bus = Bus::new();
    bus.enable_value(99);
    let mut z = HardwareZeroRegister::new();
    z.set_from_bus(&bus);
    assert_eq!(z.get_value(), 0);
    z.enable_on_bus(&mut bus);
    assert_eq!(bus.read_value(), 0);

    let mut slot = RegisterSlot::Zero(HardwareZeroRegister::new());
    bus.enable_value(5);
    slot.set_from_bus(&bus);
    assert_eq!(slot.get_value(), 0);
    let mut general = RegisterSlot::General(Register::new());
    general.set_from_bus(&bus);
    assert_eq!(general.get_value(), 5);
}

#[test]
fn csr_read_write() {
    let mut csr = CsrHandler::new();
    let mtvec = CsrAddresses::Mtvec.address();
    assert_eq!(mtvec, 0x305);
    assert_eq!(csr.read_csr(mtvec), 0);
    csr.write_csr(mtvec, 0x100);
    csr.write_csr(4095, 9);
    assert_eq!(csr.read_csr(mtvec), 0x100);
    assert_eq!(csr.read_csr(4095), 9);
    assert_eq!(csr.read_csr(0), 0);
}

#[test]
fn ram512k_wraps_addresses() {
    let mut ram = Ram512k::new();
    ram.write_byte(0x8_0001, 0xAB);
    assert_eq!(ram.read_byte(1), 0xAB);
    assert_eq!(ram.read_byte(0), 0);
}

#[test]
fn ram1m_wraps_addresses() {
    let mut ram = Ram1m::new();
    ram.write_byte(0x10_0002, 0xCD);
    assert_eq!(ram.read_byte(2), 0xCD);
    assert_eq!(ram.read_byte(0x8_0002), 0);
}

#[test]
fn rom_ignores_writes() {
    let mut rom = Rom1m::new();
    rom.write_byte(3, 0xFF);
    assert_eq!(rom.read_byte(3), 0);
}

#[test]
fn motherboard_banks_are_separate() {
    let mut mem = MotherboardMemory::new();
    mem.write_byte(0x0000_0010, 1);
    mem.write_byte(0x0008_0010, 2);
    assert_eq!(mem.read_byte(0x0000_0010), 1);
    assert_eq!(mem.read_byte(0x0008_0010), 2);
    assert_eq!(mem.read_byte(0x0010_0010), 1);
}

#[test]
fn motherboard_little_endian_words() {
    let mut mem = MotherboardMemory::new();
    mem.write_u32(0x100, 0x1234_5678);
    assert_eq!(mem.read_byte(0x100), 0x78);
    assert_eq!(mem.read_byte(0x103), 0x12);
    assert_eq!(mem.read_u16(0x100), 0x5678);
    assert_eq!(mem.read_u16(0x102), 0x1234);
    assert_eq!(mem.read_u32(0x100), 0x1234_5678);
    mem.write_u16(0x200, 0xBEEF);
    assert_eq!(mem.read_u32(0x200), 0x0000_BEEF);
}

#[test]
fn motherboard_word_wraps_at_top_of_address_space() {
    let mut mem = MotherboardMemory::new();
    mem.write_u32(0xFFFF_FFFE, 0xAABB_CCDD);
    assert_eq!(mem.read_byte(0xFFFF_FFFE), 0xDD);
    assert_eq!(mem.read_byte(0xFFFF_FFFF), 0xCC);
    assert_eq!(mem.read_byte(0), 0xBB);
    assert_eq!(mem.read_byte(1), 0xAA);
    assert_eq!(mem.read_u32(0xFFFF_FFFE), 0xAABB_CCDD);
}
