use riscv_chip::{known_opcode, sign_extend, word_runs, Instruction};

#[test]
fn sign_extend_sets_high_bits_when_sign_bit_set() {
    assert_eq!(sign_extend(0x800, 11), 0xFFFF_F800);
    assert_eq!(sign_extend(0x7FF, 11), 0x7FF);
    assert_eq!(sign_extend(0x80, 7), 0xFFFF_FF80);
    assert_eq!(sign_extend(0x1000, 12), 0xFFFF_F000);
}

#[test]
fn sign_extend_is_idempotent() {
    for (val, bit) in [(0x800u32, 11usize), (0x7FF, 11), (0xABCD, 15), (0x1F_FFFF, 20), (0, 7)] {
        let once = sign_extend(val, bit);
        assert_eq!(sign_extend(once, bit), once);
    }
}

#[test]
fn decode_nop_add_immediate() {
    let i = Instruction::new(0x0000_0013);
    assert_eq!(i.opcode, 0b0010011);
    assert_eq!(i.rd, 0);
    assert_eq!(i.rs1, 0);
    assert_eq!(i.funct3, 0);
    assert_eq!(i.immediate, 0);
}

#[test]
fn decode_system_trap() {
    let i = Instruction::new(0x0000_0073);
    assert_eq!(i.opcode, 0b1110011);
    assert_eq!(i.funct3, 0);
}

#[test]
fn decode_immediate_format_negative() {
    // addi x1, x0, -1
    let i = Instruction::new(0xFFF0_0093);
    assert_eq!(i.opcode, 0b0010011);
    assert_eq!(i.rd, 1);
    assert_eq!(i.rs1, 0);
    assert_eq!(i.immediate, 0xFFFF_FFFF);
}

#[test]
fn decode_register_format_has_no_immediate() {
    // sub x3, x1, x2
    let i = Instruction::new(0x4020_81B3);
    assert_eq!(i.opcode, 0b0110011);
    assert_eq!(i.rd, 3);
    assert_eq!(i.rs1, 1);
    assert_eq!(i.rs2, 2);
    assert_eq!(i.funct7, 0b0100000);
    assert_eq!(i.immediate, 0);
}

#[test]
fn decode_store_format() {
    // sw x2, 8(x1) and sw x2, -4(x1)
    let i = Instruction::new(0x0020_A423);
    assert_eq!(i.opcode, 0b0100011);
    assert_eq!(i.funct3, 2);
    assert_eq!(i.rs1, 1);
    assert_eq!(i.rs2, 2);
    assert_eq!(i.immediate, 8);
    assert_eq!(Instruction::new(0xFE20_AE23).immediate, 0xFFFF_FFFC);
}

#[test]
fn decode_branch_format() {
    // bne x1, x2, 16 and beq x0, x0, -4
    let i = Instruction::new(0x0020_9863);
    assert_eq!(i.opcode, 0b1100011);
    assert_eq!(i.funct3, 1);
    assert_eq!(i.immediate, 16);
    assert_eq!(Instruction::new(0xFE00_0EE3).immediate, 0xFFFF_FFFC);
}

#[test]
fn decode_upper_immediate_formats() {
    // lui x5, 0x12345 and auipc x6, 0x1
    let i = Instruction::new(0x1234_52B7);
    assert_eq!(i.opcode, 0b0110111);
    assert_eq!(i.rd, 5);
    assert_eq!(i.immediate, 0x1234_5000);
    assert_eq!(Instruction::new(0x0000_1317).immediate, 0x1000);
}

#[test]
fn decode_jump_format() {
    // jal x1, 2048 and jal x1, -8
    let i = Instruction::new(0x0010_00EF);
    assert_eq!(i.opcode, 0b1101111);
    assert_eq!(i.rd, 1);
    assert_eq!(i.immediate, 2048);
    assert_eq!(Instruction::new(0xFF9F_F0EF).immediate, 0xFFFF_FFF8);
}

#[test]
fn known_opcodes_and_runnable_words() {
    for op in [0b0110011u8, 0b0010011, 0b1100111, 0b0000011, 0b1110011, 0b0100011, 0b1100011,
        0b0110111, 0b0010111, 0b1101111]
    {
        assert!(known_opcode(op));
    }
    assert!(!known_opcode(0));
    assert!(!known_opcode(0b1111111));
    assert!(word_runs(0x0000_0013));
    assert!(word_runs(0x0000_0073));
    assert!(!word_runs(0x0000_0000));
    assert!(word_runs(0x0000_C203)); // lbu
    assert!(!word_runs(0x0000_E203)); // load mode 110
    assert!(word_runs(0x0020_F663)); // bgeu
    assert!(!word_runs(0x0020_B663)); // branch funct3 011
    assert!(!word_runs(0x0020_B023)); // store size 11
}
