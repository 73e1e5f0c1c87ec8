use riscv_chip::{
    AluAdderModule, AluAndModule, AluOrModule, AluShiftLeftModule, AluShiftRightModule,
    AluSltiModule, AluSltiuModule, AluSubtractionModule, AluXorModule, ArithmaticLogicUnit, Bus,
};

fn buses(a: u32, b: u32) -> (Bus, Bus, Bus) {
    let mut s0 = Bus::new();
    let mut s1 = Bus::new();
    s0.enable_value(a);
    s1.enable_value(b);
    (s0, s1, Bus::new())
}

fn run_alu(mode: usize, sub_flag: bool, a: u32, b: u32) -> u32 {
    let mut alu = ArithmaticLogicUnit::new();
    alu.mode = mode;
    alu.sub_flag = sub_flag;
    let (s0, s1, mut out) = buses(a, b);
    alu.tick(&s0, &s1, &mut out);
    out.read_value()
}

#[test]
fn alu_add_wraps() {
    assert_eq!(run_alu(0b000, false, 2, 3), 5);
    assert_eq!(run_alu(0b000, false, 0xFFFF_FFFF, 2), 1);
}

#[test]
fn alu_sub_wraps() {
    assert_eq!(run_alu(0b000, true, 10, 3), 7);
    assert_eq!(run_alu(0b000, true, 3, 10), 0xFFFF_FFF9);
}

#[test]
fn alu_shift_left_uses_low_five_bits() {
    assert_eq!(run_alu(0b001, false, 1, 4), 16);
    assert_eq!(run_alu(0b001, false, 1, 33), 2);
    assert_eq!(run_alu(0b001, false, 0x8000_0001, 1), 2);
}

#[test]
fn alu_shift_right_logical_and_arithmetic() {
    assert_eq!(run_alu(0b101, false, 0x8000_0000, 4), 0x0800_0000);
    assert_eq!(run_alu(0b101, true, 0x8000_0000, 4), 0xF800_0000);
    assert_eq!(run_alu(0b101, true, 0x4000_0000, 36), 0x0400_0000);
    assert_eq!(run_alu(0b101, false, 0xFFFF_FFFF, 31), 1);
}

#[test]
fn alu_less_than_signed_and_unsigned() {
    assert_eq!(run_alu(0b010, false, 0xFFFF_FFFF, 1), 1);
    assert_eq!(run_alu(0b010, false, 1, 0xFFFF_FFFF), 0);
    assert_eq!(run_alu(0b011, false, 0xFFFF_FFFF, 1), 0);
    assert_eq!(run_alu(0b011, false, 1, 0xFFFF_FFFF), 1);
    assert_eq!(run_alu(0b011, false, 5, 5), 0);
}

#[test]
fn alu_bitwise_modes() {
    assert_eq!(run_alu(0b100, false, 0b1100, 0b1010), 0b0110);
    assert_eq!(run_alu(0b110, false, 0b1100, 0b1010), 0b1110);
    assert_eq!(run_alu(0b111, false, 0b1100, 0b1010), 0b1000);
}

#[test]
fn alu_modules_drive_their_results() {
    let (s0, s1, mut out) = buses(0xF0F0_0001, 0x0FF0_0003);
    AluAdderModule::new().tick(&s0, &s1, &mut out);
    assert_eq!(out.read_value(), 0x00E0_0004);
    AluSubtractionModule::new().tick(&s0, &s1, &mut out);
    assert_eq!(out.read_value(), 0xE0FF_FFFE);
    AluAndModule::new().tick(&s0, &s1, &mut out);
    assert_eq!(out.read_value(), 0x00F0_0001);
    AluOrModule::new().tick(&s0, &s1, &mut out);
    assert_eq!(out.read_value(), 0xFFF0_0003);
    AluXorModule::new().tick(&s0, &s1, &mut out);
    assert_eq!(out.read_value(), 0xFF00_0002);
    AluSltiModule::new().tick(&s0, &s1, &mut out);
    assert_eq!(out.read_value(), 1);
    AluSltiuModule::new().tick(&s0, &s1, &mut out);
    assert_eq!(out.read_value(), 0);
    AluShiftLeftModule::new().tick(&s0, &s1, &mut out);
    assert_eq!(out.read_value(), 0x8780_0008);
    AluShiftRightModule::new().tick(&s0, &s1, &mut out, true);
    assert_eq!(out.read_value(), 0xFE1E_0000);
    AluShiftRightModule::new().tick(&s0, &s1, &mut out, false);
    assert_eq!(out.read_value(), 0x1E1E_0000);
}
