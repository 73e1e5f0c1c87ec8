use riscv_chip::{ChipCPU, ChipMode};

fn program(words: &[u32]) -> Vec<u8> {
    let mut bytes = Vec::new();
    for w in words {
        bytes.extend_from_slice(&w.to_le_bytes());
    }
    bytes
}

fn chip_with(words: &[u32]) -> ChipCPU {
    let mut cpu = ChipCPU::new();
    cpu.write_to_memory(0, program(words));
    cpu
}

fn run(cpu: &mut ChipCPU, instructions: usize) {
    for _ in 0..instructions {
        cpu.clock_to_instruction();
    }
}

#[test]
fn nop_then_trap_loops_to_trap_vector() {
    let mut cpu = chip_with(&[0x0000_0013, 0x0000_0073]);
    assert_eq!(cpu.mode(), ChipMode::LoadInstruction);
    cpu.clock_to_instruction();
    assert_eq!(cpu.get_program_counter(), 4);
    assert_eq!(cpu.read_register_value(0), 0);
    assert_eq!(cpu.mode(), ChipMode::LoadInstruction);
    cpu.clock_to_instruction();
    assert_eq!(cpu.get_program_counter(), 0);
    run(&mut cpu, 10);
    assert_eq!(cpu.get_program_counter(), 0);
    assert_eq!(cpu.read_register_value(0), 0);
}

#[test]
fn micro_steps_of_add_immediate() {
    let mut cpu = chip_with(&[0x0050_0093]); // addi x1, x0, 5
    cpu.clock_processor();
    assert_eq!(cpu.mode(), ChipMode::ExecuteInstruction);
    cpu.clock_processor();
    assert_eq!(cpu.mode(), ChipMode::StoreResult);
    assert_eq!(cpu.get_program_counter(), 4);
    assert_eq!(cpu.read_register_value(1), 0);
    cpu.clock_processor();
    assert_eq!(cpu.mode(), ChipMode::LoadInstruction);
    assert_eq!(cpu.read_register_value(1), 5);
}

#[test]
fn register_arithmetic() {
    let mut cpu = chip_with(&[
        0x0050_0093, // addi x1, x0, 5
        0x0070_0113, // addi x2, x0, 7
        0x0020_81B3, // add x3, x1, x2
        0x4020_81B3, // sub x3, x1, x2
    ]);
    run(&mut cpu, 3);
    assert_eq!(cpu.read_register_value(3), 12);
    run(&mut cpu, 1);
    assert_eq!(cpu.read_register_value(3), 0xFFFF_FFFE);
    assert_eq!(cpu.get_program_counter(), 16);
}

#[test]
fn shift_right_arithmetic_immediate() {
    let mut cpu = chip_with(&[
        0xFFF0_0093, // addi x1, x0, -1
        0x4040_D193, // srai x3, x1, 4
    ]);
    run(&mut cpu, 2);
    assert_eq!(cpu.read_register_value(1), 0xFFFF_FFFF);
    assert_eq!(cpu.read_register_value(3), 0xFFFF_FFFF);
}

#[test]
fn upper_immediates() {
    let mut cpu = chip_with(&[
        0x1234_52B7, // lui x5, 0x12345
        0x0000_1317, // auipc x6, 0x1
    ]);
    run(&mut cpu, 2);
    assert_eq!(cpu.read_register_value(5), 0x1234_5000);
    assert_eq!(cpu.read_register_value(6), 0x1004);
}

#[test]
fn jump_and_link() {
    let mut cpu = chip_with(&[0x0010_00EF]); // jal x1, 2048
    run(&mut cpu, 1);
    assert_eq!(cpu.get_program_counter(), 2048);
    assert_eq!(cpu.read_register_value(1), 4);
}

#[test]
fn jump_and_link_register_links_next_pc() {
    let mut cpu = chip_with(&[
        0x0070_0113, // addi x2, x0, 7
        0x00C1_00E7, // jalr x1, 12(x2)
    ]);
    run(&mut cpu, 2);
    assert_eq!(cpu.get_program_counter(), 19);
    assert_eq!(cpu.read_register_value(1), 8);
}

#[test]
fn jump_and_link_register_to_zero_register() {
    let mut cpu = chip_with(&[
        0x0070_0113, // addi x2, x0, 7
        0x00C1_0067, // jalr x0, 12(x2)
    ]);
    run(&mut cpu, 2);
    assert_eq!(cpu.get_program_counter(), 19);
    assert_eq!(cpu.read_register_value(0), 0);
}

fn branch_outcome(x1: i32, x2: i32, branch: u32) -> u32 {
    let mut cpu = ChipCPU::new();
    let addi_x1 = ((x1 as u32 & 0xFFF) << 20) | (1 << 7) | 0x13;
    let addi_x2 = ((x2 as u32 & 0xFFF) << 20) | (2 << 7) | 0x13;
    cpu.write_to_memory(0, program(&[addi_x1, addi_x2, branch]));
    run(&mut cpu, 3);
    cpu.get_program_counter()
}

#[test]
fn branches_taken_go_to_target() {
    // each branch sits at address 8 with offset 12
    assert_eq!(branch_outcome(3, 3, 0x0020_8663), 20); // beq
    assert_eq!(branch_outcome(3, 4, 0x0020_9663), 20); // bne
    assert_eq!(branch_outcome(-1, 1, 0x0020_C663), 20); // blt
    assert_eq!(branch_outcome(1, -1, 0x0020_D663), 20); // bge
    assert_eq!(branch_outcome(1, -1, 0x0020_E663), 20); // bltu
    assert_eq!(branch_outcome(-1, 1, 0x0020_F663), 20); // bgeu
}

#[test]
fn branches_not_taken_fall_through() {
    assert_eq!(branch_outcome(3, 4, 0x0020_8663), 12); // beq
    assert_eq!(branch_outcome(3, 3, 0x0020_9663), 12); // bne
    assert_eq!(branch_outcome(1, -1, 0x0020_C663), 12); // blt
    assert_eq!(branch_outcome(-1, 1, 0x0020_D663), 12); // bge
    assert_eq!(branch_outcome(-1, 1, 0x0020_E663), 12); // bltu
    assert_eq!(branch_outcome(1, -1, 0x0020_F663), 12); // bgeu
}

#[test]
fn branch_equal_on_equal_nonzero_registers() {
    assert_eq!(branch_outcome(5, 5, 0x0020_8663), 20);
    assert_eq!(branch_outcome(5, 5, 0x0020_9663), 12);
}

#[test]
fn backward_branch() {
    let mut cpu = chip_with(&[0x0000_0013, 0xFE00_0EE3]); // nop; beq x0, x0, -4
    run(&mut cpu, 2);
    assert_eq!(cpu.get_program_counter(), 0);
}

/// Runs a store at address 8 with x1 = 0x400 and x2 = `value`, then the load
/// at address 12, and returns the loaded register x4.
fn store_then_load(value: u32, store: u32, load: u32) -> u32 {
    let mut cpu = ChipCPU::new();
    cpu.write_to_memory(
        0,
        program(&[
            0x4000_0093, // addi x1, x0, 0x400
            0x0000_0113, // addi x2, x0, 0
            store,
            load,
        ]),
    );
    run(&mut cpu, 2);
    // x2 = value, built from an upper and lower part
    let upper = value.wrapping_add(0x800) & 0xFFFF_F000;
    let lower = value.wrapping_sub(upper) & 0xFFF;
    cpu.write_to_memory(
        0x800,
        program(&[
            upper | (2 << 7) | 0x37,                 // lui x2, upper
            (lower << 20) | (2 << 15) | (2 << 7) | 0x13, // addi x2, x2, lower
            0x0000_0013,
        ]),
    );
    cpu.set_program_counter(0x800);
    run(&mut cpu, 2);
    assert_eq!(cpu.read_register_value(2), value);
    cpu.set_program_counter(8);
    run(&mut cpu, 1);
    // a store completes the instruction without moving the program counter
    assert_eq!(cpu.get_program_counter(), 8);
    cpu.set_program_counter(12);
    run(&mut cpu, 1);
    assert_eq!(cpu.get_program_counter(), 16);
    cpu.read_register_value(4)
}

#[test]
fn store_word_then_load_word() {
    assert_eq!(store_then_load(0xDEAD_BEEF, 0x0020_A023, 0x0000_A203), 0xDEAD_BEEF);
    assert_eq!(store_then_load(0x0123_4567, 0x0020_A023, 0x0000_A203), 0x0123_4567);
}

#[test]
fn store_half_then_signed_load_half() {
    assert_eq!(store_then_load(0x1234_8001, 0x0020_9023, 0x0000_9203), 0xFFFF_8001);
    assert_eq!(store_then_load(0x1234_7001, 0x0020_9023, 0x0000_9203), 0x0000_7001);
    assert_eq!(store_then_load(0x1234_8001, 0x0020_9023, 0x0000_D203), 0x0000_8001);
}

#[test]
fn store_byte_then_signed_load_byte() {
    assert_eq!(store_then_load(0x1234_5680, 0x0020_8023, 0x0000_8203), 0xFFFF_FF80);
    assert_eq!(store_then_load(0x1234_567F, 0x0020_8023, 0x0000_8203), 0x0000_007F);
    assert_eq!(store_then_load(0x1234_5680, 0x0020_8023, 0x0000_C203), 0x0000_0080);
}

#[test]
fn system_instruction_with_nonzero_funct3_writes_back() {
    // csrrw x5, mtvec, x0: a system instruction that is no trap completes as a
    // write back of the next address
    let mut cpu = chip_with(&[0x3050_12F3]);
    run(&mut cpu, 1);
    assert_eq!(cpu.get_program_counter(), 4);
    assert_eq!(cpu.read_register_value(5), 4);
}

#[test]
fn image_load_wraps_around_address_space() {
    let mut cpu = ChipCPU::new();
    cpu.write_to_memory(0xFFFF_FFFE, program(&[0x0000_0013, 0x0000_0013]));
    // the first no-op fills 0xFFFFFFFE, 0xFFFFFFFF, 0 and 1
    cpu.set_program_counter(0xFFFF_FFFE);
    run(&mut cpu, 1);
    assert_eq!(cpu.get_program_counter(), 2);
}

#[test]
fn new_chip_starts_cleared() {
    let cpu = ChipCPU::new();
    let s = cpu.snapshot();
    assert_eq!(s.registers, vec![0u32; 32]);
    assert_eq!(s.program_counter, 0);
    assert_eq!(s.src0_bus, 0);
    assert_eq!(s.src1_bus, 0);
    assert_eq!(s.alu_out_bus, 0);
    assert_eq!(s.address_bus, 0);
    assert_eq!(s.data_bus, 0);
    assert_eq!(s.clock, 0);
    assert_eq!(s.mode, ChipMode::LoadInstruction);
    assert_eq!(s.alu_mode, 0);
    assert!(!s.alu_sub_flag);
    assert_eq!(s.memory_mode, 0);
    assert!(!cpu.get_debug_display());
}

#[test]
fn snapshot_counts_clock_ticks() {
    let mut cpu = chip_with(&[0x0050_0093]); // addi x1, x0, 5
    run(&mut cpu, 1);
    let s = cpu.snapshot();
    assert_eq!(s.clock, 3);
    assert_eq!(s.registers[1], 5);
    assert_eq!(s.instruction, 0x0050_0093);
    assert_eq!(s.output2, 4);
}

#[test]
fn program_counter_and_debug_flag_accessors() {
    let mut cpu = ChipCPU::new();
    cpu.set_program_counter(0x40);
    assert_eq!(cpu.get_program_counter(), 0x40);
    cpu.set_debug_display(true);
    assert!(cpu.get_debug_display());
    cpu.set_debug_display(false);
    assert!(!cpu.get_debug_display());
}

#[test]
fn run_is_defined_checks_the_next_instruction() {
    let mut cpu = chip_with(&[
        0x0000_0013, // nop
        0x0000_0000, // no known opcode
        0x0000_A203, // lw x4, 0(x1)
        0x0000_B203, // load with memory mode 011
        0x0020_A663, // branch with funct3 010
        0x0020_B023, // store with size 11
    ]);
    assert!(cpu.run_is_defined());
    cpu.clock_to_instruction();
    assert!(!cpu.run_is_defined());
    cpu.set_program_counter(8);
    assert!(cpu.run_is_defined());
    for pc in [12u32, 16, 20] {
        cpu.set_program_counter(pc);
        assert!(!cpu.run_is_defined());
    }
}

#[test]
fn tick_is_defined_checks_the_current_state() {
    let mut cpu = chip_with(&[0x0000_0000]);
    assert!(cpu.tick_is_defined());
    cpu.clock_processor();
    assert_eq!(cpu.mode(), ChipMode::ExecuteInstruction);
    assert!(!cpu.tick_is_defined());
}
