use vstd::prelude::*;

use crate::alu::{alu_result, ArithmaticLogicUnit, ALU_MODE_ADD, ALU_MODE_SLT, ALU_MODE_SLTU};
use crate::alu_modules::{wrapped_difference, wrapped_sum};
use crate::bus::Bus;
use crate::csr::{CsrAddresses, CsrHandler, CSR_COUNT, MTVEC_ADDRESS};
use crate::instruction::{
    decode, is_known_opcode, known_opcode, opcode_of, sign_extend, sign_extended, Instruction, OPCODE_AUIPC,
    OPCODE_BRANCH, OPCODE_JAL, OPCODE_JALR, OPCODE_LOAD, OPCODE_LUI, OPCODE_OP, OPCODE_OP_IMM,
    OPCODE_STORE, OPCODE_SYSTEM,
};
use crate::memory::{
    byte_of, offset_address, MemoryAccess, MemoryAccess16, MemoryAccess32, MotherboardMemory,
    CHIP_1M_SIZE,
};
use crate::register::{HardwareZeroRegister, Register, Register32, RegisterSlot};

verus! {

/// Number of general-purpose registers.
pub const REGISTER_COUNT: usize = 32;

/// Memory mode of a word access.
pub const MEMORY_MODE_WORD: u8 = 0b010;

/// Where in the execution of an instruction the processor stands.
#[derive(Debug, Clone, Copy, PartialEq, Eq, Structural)]
pub enum ChipMode {
    LoadInstruction,
    ExecuteInstruction,
    LoadData,
    StoreResult,
    ExecuteJump,
    ExecuteBranch,
    BranchCheck,
}

/// The state of the processor that instructions act on: registers, holding
/// registers, control state, memory and control/status registers.
pub struct ChipView {
    pub regs: Seq<u32>,
    pub pc: u32,
    pub inst: u32,
    pub output: u32,
    pub output2: u32,
    pub immediate: u32,
    pub mode: ChipMode,
    pub memory: Seq<u8>,
    pub csr: Seq<u32>,
    pub clock: usize,
}

/// Shapes every processor state has: 32 registers of which the first reads as
/// zero, the motherboard's memory, and the full set of CSRs.
pub open spec fn view_wf(v: ChipView) -> bool {
    &&& v.regs.len() == REGISTER_COUNT
    &&& v.regs[0] == 0
    &&& v.memory.len() == CHIP_1M_SIZE
    &&& v.csr.len() == CSR_COUNT
}

/// The memory cell an address selects on the motherboard.
pub open spec fn cell(addr: u32) -> int {
    (addr & 0xFFFFF) as int
}

/// The byte at an address.
pub open spec fn mem_byte(mem: Seq<u8>, addr: u32) -> u8 {
    mem[cell(addr)]
}

/// The little-endian half word at an address.
pub open spec fn mem_half(mem: Seq<u8>, addr: u32) -> u16 {
    (mem_byte(mem, addr) as u16) | ((mem_byte(mem, offset_address(addr, 1)) as u16) << 8)
}

/// The little-endian word at an address.
pub open spec fn mem_word(mem: Seq<u8>, addr: u32) -> u32 {
    (mem_byte(mem, addr) as u32) | ((mem_byte(mem, offset_address(addr, 1)) as u32) << 8) | ((
    mem_byte(mem, offset_address(addr, 2)) as u32) << 16) | ((mem_byte(mem, offset_address(addr, 3))
        as u32) << 24)
}

/// Whether a memory mode can be used to read: a signed byte, half word or
/// word, or an unsigned byte or half word.
pub open spec fn readable_mode(mode: u8) -> bool {
    mode == 0b000 || mode == 0b001 || mode == 0b010 || mode == 0b100 || mode == 0b101
}

/// Whether a memory mode can be used to write: its size is a byte, half word or word.
pub open spec fn writable_mode(mode: u8) -> bool {
    mode & 0b11 != 0b11
}

/// The value a read in memory mode `mode` at `addr` yields.
pub open spec fn load_value(mem: Seq<u8>, mode: u8, addr: u32) -> u32 {
    if mode == 0b000 {
        sign_extended(mem_byte(mem, addr) as u32, 7)
    } else if mode == 0b001 {
        sign_extended(mem_half(mem, addr) as u32, 15)
    } else if mode == 0b010 {
        mem_word(mem, addr)
    } else if mode == 0b100 {
        mem_byte(mem, addr) as u32
    } else {
        mem_half(mem, addr) as u32
    }
}

/// Memory after a write of `val` in memory mode `mode` at `addr`: its low
/// byte, low half word or whole word, low byte first.
pub open spec fn store_bytes(mem: Seq<u8>, mode: u8, addr: u32, val: u32) -> Seq<u8> {
    let size = mode & 0b11;
    let m1 = mem.update(cell(addr), byte_of(val, 0));
    let m2 = m1.update(cell(offset_address(addr, 1)), byte_of(val, 1));
    if size == 0 {
        m1
    } else if size == 1 {
        m2
    } else {
        m2.update(cell(offset_address(addr, 2)), byte_of(val, 2)).update(
            cell(offset_address(addr, 3)),
            byte_of(val, 3),
        )
    }
}

/// Memory after writing `bytes` one by one from `addr` upward, wrapping
/// around the address space.
pub open spec fn load_image(mem: Seq<u8>, addr: u32, bytes: Seq<u8>) -> Seq<u8>
    decreases bytes.len(),
{
    if bytes.len() == 0 {
        mem
    } else {
        load_image(mem, addr, bytes.drop_last()).update(
            cell(offset_address(addr, (bytes.len() - 1) as u32)),
            bytes.last(),
        )
    }
}

/// Registers after latching `val` into register `rd`; register zero ignores it.
pub open spec fn write_reg(regs: Seq<u32>, rd: u8, val: u32) -> Seq<u32> {
    if rd == 0 {
        regs
    } else {
        regs.update(rd as int, val)
    }
}

/// The clock count after one more tick.
pub open spec fn next_clock(c: usize) -> usize {
    if c < usize::MAX {
        (c + 1) as usize
    } else {
        0
    }
}

/// The comparison the ALU makes for a branch: a difference (zero when equal)
/// or a less-than flag.
pub open spec fn branch_compare(funct3: u8, a: u32, b: u32) -> u32 {
    if funct3 & 0b110 == 0b000 {
        wrapped_difference(a, b)
    } else if funct3 & 0b110 == 0b100 {
        alu_result(ALU_MODE_SLT, false, a, b)
    } else if funct3 & 0b110 == 0b110 {
        alu_result(ALU_MODE_SLTU, false, a, b)
    } else {
        wrapped_sum(a, b)
    }
}

/// Whether a branch whose comparison gave `compared` is taken.
pub open spec fn branch_decision(funct3: u8, compared: u32) -> bool {
    let holds = if funct3 & 0b110 == 0b000 {
        compared == 0
    } else {
        compared == 1
    };
    if funct3 & 0b001 != 0 {
        !holds
    } else {
        holds
    }
}

/// The RV32I branch condition: equal, not equal, less than, greater or equal,
/// and the unsigned less than and greater or equal.
pub open spec fn branch_taken(funct3: u8, a: u32, b: u32) -> bool {
    let holds = if funct3 & 0b110 == 0b000 {
        a == b
    } else if funct3 & 0b110 == 0b100 {
        (a as i32) < (b as i32)
    } else {
        a < b
    };
    if funct3 & 0b001 != 0 {
        !holds
    } else {
        holds
    }
}

/// Fetch: the word at the program counter becomes the instruction, and the
/// address of the next one is computed.
pub open spec fn step_load_instruction(v: ChipView) -> ChipView {
    ChipView {
        inst: mem_word(v.memory, v.pc),
        output2: wrapped_sum(v.pc, 4),
        mode: ChipMode::ExecuteInstruction,
        clock: next_clock(v.clock),
        ..v
    }
}

/// Execute: the decoded instruction drives the ALU and picks the next state.
pub open spec fn step_execute_instruction(v: ChipView) -> ChipView {
    let i = decode(v.inst);
    let rs1 = v.regs[i.rs1 as int];
    let rs2 = v.regs[i.rs2 as int];
    let v = ChipView { immediate: i.immediate, clock: next_clock(v.clock), ..v };
    if i.opcode == OPCODE_OP_IMM {
        let sub = (i.funct7 & 0b0100000) != 0 && i.funct3 == 0b101;
        ChipView {
            output: alu_result(i.funct3 as usize, sub, rs1, i.immediate),
            pc: v.output2,
            mode: ChipMode::StoreResult,
            ..v
        }
    } else if i.opcode == OPCODE_OP {
        let sub = (i.funct7 & 0b0100000) != 0;
        ChipView {
            output: alu_result(i.funct3 as usize, sub, rs1, rs2),
            pc: v.output2,
            mode: ChipMode::StoreResult,
            ..v
        }
    } else if i.opcode == OPCODE_LUI {
        ChipView { output: i.immediate, pc: v.output2, mode: ChipMode::StoreResult, ..v }
    } else if i.opcode == OPCODE_AUIPC {
        ChipView {
            output: wrapped_sum(i.immediate, v.pc),
            pc: v.output2,
            mode: ChipMode::StoreResult,
            ..v
        }
    } else if i.opcode == OPCODE_LOAD {
        ChipView {
            output: wrapped_sum(rs1, i.immediate),
            pc: v.output2,
            mode: ChipMode::LoadData,
            ..v
        }
    } else if i.opcode == OPCODE_STORE {
        let addr = wrapped_sum(rs1, i.immediate);
        ChipView {
            output: addr,
            memory: store_bytes(v.memory, i.funct3, addr, rs2),
            mode: ChipMode::LoadInstruction,
            ..v
        }
    } else if i.opcode == OPCODE_SYSTEM {
        if i.funct3 == 0 {
            ChipView {
                output: wrapped_sum(v.pc, 4),
                pc: v.csr[MTVEC_ADDRESS as int],
                mode: ChipMode::LoadInstruction,
                ..v
            }
        } else {
            ChipView {
                output: wrapped_sum(v.pc, 4),
                pc: v.output2,
                mode: ChipMode::StoreResult,
                ..v
            }
        }
    } else if i.opcode == OPCODE_JAL {
        ChipView { output: wrapped_sum(v.pc, i.immediate), mode: ChipMode::ExecuteJump, ..v }
    } else if i.opcode == OPCODE_JALR {
        ChipView { output: wrapped_sum(i.immediate, rs1), mode: ChipMode::ExecuteJump, ..v }
    } else {
        ChipView {
            output: branch_compare(i.funct3, rs1, rs2),
            mode: ChipMode::BranchCheck,
            ..v
        }
    }
}

/// Load: the value read at the computed address goes to the destination register.
pub open spec fn step_load_data(v: ChipView) -> ChipView {
    let i = decode(v.inst);
    ChipView {
        regs: write_reg(v.regs, i.rd, load_value(v.memory, i.funct3, v.output)),
        mode: ChipMode::LoadInstruction,
        clock: next_clock(v.clock),
        ..v
    }
}

/// Write back: the ALU result goes to the destination register.
pub open spec fn step_store_result(v: ChipView) -> ChipView {
    let i = decode(v.inst);
    ChipView {
        regs: write_reg(v.regs, i.rd, v.output),
        mode: ChipMode::LoadInstruction,
        clock: next_clock(v.clock),
        ..v
    }
}

/// Jump: the target goes to the program counter and the link value to the
/// destination register.
pub open spec fn step_execute_jump(v: ChipView) -> ChipView {
    let i = decode(v.inst);
    ChipView {
        pc: v.output,
        regs: write_reg(v.regs, i.rd, v.output2),
        mode: ChipMode::LoadInstruction,
        clock: next_clock(v.clock),
        ..v
    }
}

/// Branch check: a taken branch computes its target, one not taken moves on
/// to the next instruction.
pub open spec fn step_branch_check(v: ChipView) -> ChipView {
    let i = decode(v.inst);
    if branch_decision(i.funct3, v.output) {
        ChipView {
            output: wrapped_sum(v.pc, v.immediate),
            mode: ChipMode::ExecuteBranch,
            clock: next_clock(v.clock),
            ..v
        }
    } else {
        ChipView { pc: v.output2, mode: ChipMode::LoadInstruction, clock: next_clock(v.clock), ..v }
    }
}

/// Branch: the target goes to the program counter.
pub open spec fn step_execute_branch(v: ChipView) -> ChipView {
    ChipView { pc: v.output, mode: ChipMode::LoadInstruction, clock: next_clock(v.clock), ..v }
}

/// One clock tick of the processor.
pub open spec fn step(v: ChipView) -> ChipView {
    match v.mode {
        ChipMode::LoadInstruction => step_load_instruction(v),
        ChipMode::ExecuteInstruction => step_execute_instruction(v),
        ChipMode::LoadData => step_load_data(v),
        ChipMode::StoreResult => step_store_result(v),
        ChipMode::ExecuteJump => step_execute_jump(v),
        ChipMode::BranchCheck => step_branch_check(v),
        ChipMode::ExecuteBranch => step_execute_branch(v),
    }
}

/// Whether a tick in state `v` stays inside the modelled architecture: the
/// instruction decodes, its memory access has a valid size, and a branch
/// compares in one of the six RV32I ways.
pub open spec fn step_defined(v: ChipView) -> bool {
    let i = decode(v.inst);
    match v.mode {
        ChipMode::LoadInstruction => true,
        ChipMode::ExecuteBranch => true,
        ChipMode::ExecuteInstruction => is_known_opcode(i.opcode) && (i.opcode == OPCODE_STORE
            ==> writable_mode(i.funct3)),
        ChipMode::LoadData => is_known_opcode(i.opcode) && readable_mode(i.funct3),
        ChipMode::BranchCheck => is_known_opcode(i.opcode) && i.funct3 & 0b110 != 0b010,
        _ => is_known_opcode(i.opcode),
    }
}

/// Whether an instruction word executes to its end inside the modelled
/// architecture: its opcode is known, a store has a valid size, a load a valid
/// mode, and a branch one of the six RV32I comparisons.
pub open spec fn instruction_runs(word: u32) -> bool {
    let i = decode(word);
    &&& is_known_opcode(i.opcode)
    &&& i.opcode == OPCODE_STORE ==> writable_mode(i.funct3)
    &&& i.opcode == OPCODE_LOAD ==> readable_mode(i.funct3)
    &&& i.opcode == OPCODE_BRANCH ==> i.funct3 & 0b110 != 0b010
}

/// An upper bound on the ticks left before the next instruction fetch.
pub open spec fn ticks_left(mode: ChipMode) -> nat {
    match mode {
        ChipMode::LoadInstruction => 0,
        ChipMode::ExecuteInstruction => 3,
        ChipMode::BranchCheck => 2,
        _ => 1,
    }
}

/// The state reached by ticking until the processor is about to fetch.
pub open spec fn finish(v: ChipView) -> ChipView
    decreases ticks_left(v.mode),
{
    if v.mode == ChipMode::LoadInstruction {
        v
    } else if ticks_left(step(v).mode) < ticks_left(v.mode) {
        finish(step(v))
    } else {
        v
    }
}

/// Whether every tick up to the next fetch is defined.
pub open spec fn finish_defined(v: ChipView) -> bool
    decreases ticks_left(v.mode),
{
    if v.mode == ChipMode::LoadInstruction {
        true
    } else if ticks_left(step(v).mode) < ticks_left(v.mode) {
        step_defined(v) && finish_defined(step(v))
    } else {
        true
    }
}

/// The state after running to the next instruction boundary: one tick, then
/// ticks until the next fetch.
#[verifier::opaque]
pub open spec fn run_to_boundary(v: ChipView) -> ChipView {
    finish(step(v))
}

/// Whether running to the next instruction boundary stays defined.
#[verifier::opaque]
pub open spec fn run_defined(v: ChipView) -> bool {
    step_defined(v) && finish_defined(step(v))
}

/// Running to the next boundary stays defined exactly when the instruction
/// it works on (the one fetched, from the fetch state) can run from the
/// state the processor is in.
pub proof fn lemma_run_defined(v: ChipView)
    ensures
        run_defined(v) == match v.mode {
            ChipMode::LoadInstruction => instruction_runs(mem_word(v.memory, v.pc)),
            ChipMode::ExecuteInstruction => instruction_runs(v.inst),
            ChipMode::ExecuteBranch => true,
            _ => step_defined(v),
        },
{
    reveal(run_defined);
    reveal_with_fuel(finish_defined, 5);
}

/// Every tick away from the fetch state brings the next fetch closer.
pub proof fn lemma_step_progress(v: ChipView)
    requires
        v.mode != ChipMode::LoadInstruction,
    ensures
        ticks_left(step(v).mode) < ticks_left(v.mode),
{
}

/// Whether an instruction word executes to its end inside the modelled architecture.
pub fn word_runs(word: u32) -> (r: bool)
    ensures
        r == instruction_runs(word),
{
    let opcode = (word & 0x7F) as u8;
    let funct3 = ((word >> 12) & 0x7) as u8;
    known_opcode(opcode) && (opcode != OPCODE_STORE || funct3 & 0b11 != 0b11) && (opcode
        != OPCODE_LOAD || funct3 == 0b000 || funct3 == 0b001 || funct3 == 0b010 || funct3 == 0b100
        || funct3 == 0b101) && (opcode != OPCODE_BRANCH || funct3 & 0b110 != 0b010)
}

/// The values inside a processor at one moment, for inspection.
pub struct ChipSnapshot {
    pub registers: Vec<u32>,
    pub program_counter: u32,
    pub output: u32,
    pub output2: u32,
    pub instruction: u32,
    pub src0_bus: u32,
    pub src1_bus: u32,
    pub alu_out_bus: u32,
    pub address_bus: u32,
    pub data_bus: u32,
    pub clock: usize,
    pub mode: ChipMode,
    pub alu_mode: usize,
    pub alu_sub_flag: bool,
    pub memory_mode: u8,
}

/// An RV32I processor built from buses, registers, an ALU, CSRs and memory,
/// that executes one micro-step of an instruction per clock tick.
pub struct ChipCPU {
    src0_bus: Bus,
    src1_bus: Bus,
    alu_out_bus: Bus,
    ram_addr_bus: Bus,
    data: Bus,
    clock: usize,
    inst: Register,
    pub program_counter: Register,
    output: Register,
    output2: Register,
    immediate: Register,
    mode: ChipMode,
    memory_mode: u8,
    registers: Vec<RegisterSlot>,
    memory: MotherboardMemory,
    alu: ArithmaticLogicUnit,
    pub debug_display: bool,
    csr_handle: CsrHandler,
}

impl View for ChipCPU {
    type V = ChipView;

    closed spec fn view(&self) -> ChipView {
        ChipView {
            regs: Seq::new(REGISTER_COUNT as nat, |i: int| self.registers@[i].reads_as()),
            pc: self.program_counter.value,
            inst: self.inst.value,
            output: self.output.value,
            output2: self.output2.value,
            immediate: self.immediate.value,
            mode: self.mode,
            memory: self.memory.cells(),
            csr: self.csr_handle@,
            clock: self.clock,
        }
    }
}

impl ChipCPU {
    /// The register file holds the zero register in slot zero and ordinary
    /// registers elsewhere; the ALU's mode is a 3-bit code; and while an
    /// instruction waits to execute, the ALU is still set up as the fetch
    /// left it, adding four to the program counter.
    pub closed spec fn wf(&self) -> bool {
        &&& self.registers@.len() == REGISTER_COUNT
        &&& self.registers@[0] is Zero
        &&& forall|i: int| 1 <= i < REGISTER_COUNT ==> self.registers@[i] is General
        &&& self.memory.wf()
        &&& self.csr_handle.wf()
        &&& self.alu.mode < 8
        &&& self.mode == ChipMode::ExecuteInstruction ==> {
            &&& self.alu.mode == ALU_MODE_ADD
            &&& !self.alu.sub_flag
            &&& self.src0_bus@ == self.program_counter.value
            &&& self.src1_bus@ == 4
        }
    }

    /// Whether a debug snapshot is wanted after each tick.
    pub closed spec fn debug_flag(&self) -> bool {
        self.debug_display
    }

    /// The value on the first ALU source bus.
    pub closed spec fn src0_bus_value(&self) -> u32 {
        self.src0_bus@
    }

    /// The value on the second ALU source bus.
    pub closed spec fn src1_bus_value(&self) -> u32 {
        self.src1_bus@
    }

    /// The ALU's current mode.
    pub closed spec fn alu_mode(&self) -> usize {
        self.alu.mode
    }

    /// The ALU's current subtract / arithmetic-shift flag.
    pub closed spec fn alu_sub_flag(&self) -> bool {
        self.alu.sub_flag
    }

    /// The value on the address bus.
    pub closed spec fn address_bus(&self) -> u32 {
        self.ram_addr_bus@
    }

    /// The value on the ALU's output bus.
    pub closed spec fn alu_output_bus(&self) -> u32 {
        self.alu_out_bus@
    }

    /// The value on the data bus.
    pub closed spec fn data_bus(&self) -> u32 {
        self.data@
    }

    /// The memory mode of the next memory access.
    pub closed spec fn memory_mode_code(&self) -> u8 {
        self.memory_mode
    }

    /// Generate a new ChipCPU: registers, memory and CSRs cleared, about to
    /// fetch from address zero.
    pub fn new() -> (r: Self)
        ensures
            r.wf(),
            r@ == (ChipView {
                regs: Seq::new(REGISTER_COUNT as nat, |i: int| 0u32),
                pc: 0,
                inst: 0,
                output: 0,
                output2: 0,
                immediate: 0,
                mode: ChipMode::LoadInstruction,
                memory: Seq::new(CHIP_1M_SIZE as nat, |i: int| 0u8),
                csr: Seq::new(CSR_COUNT as nat, |i: int| 0u32),
                clock: 0,
            }),
            !r.debug_flag(),
            r.src0_bus_value() == 0,
            r.src1_bus_value() == 0,
            r.alu_output_bus() == 0,
            r.address_bus() == 0,
            r.data_bus() == 0,
            r.alu_mode() == ALU_MODE_ADD,
            !r.alu_sub_flag(),
            r.memory_mode_code() == 0,
    {
        let mut registers: Vec<RegisterSlot> = Vec::new();
        registers.push(RegisterSlot::Zero(HardwareZeroRegister::new()));
        while registers.len() < REGISTER_COUNT
            invariant
                1 <= registers@.len() <= REGISTER_COUNT,
                registers@[0] is Zero,
                forall|i: int| 1 <= i < registers@.len() ==> registers@[i] == RegisterSlot::General(
                    Register { value: 0 },
                ),
            decreases REGISTER_COUNT - registers@.len(),
        {
            registers.push(RegisterSlot::General(Register::new()));
        }
        let r = Self {
            src0_bus: Bus::new(),
            src1_bus: Bus::new(),
            alu_out_bus: Bus::new(),
            ram_addr_bus: Bus::new(),
            data: Bus::new(),
            clock: 0,
            inst: Register::new(),
            program_counter: Register::new(),
            output: Register::new(),
            output2: Register::new(),
            immediate: Register::new(),
            mode: ChipMode::LoadInstruction,
            memory_mode: 0,
            registers,
            memory: MotherboardMemory::new(),
            alu: ArithmaticLogicUnit::new(),
            debug_display: false,
            csr_handle: CsrHandler::new(),
        };
        assert(r@.regs =~= Seq::new(REGISTER_COUNT as nat, |i: int| 0u32));
        r
    }

    /// The state view of a well-formed processor has the shapes every state has.
    pub proof fn lemma_view_wf(&self)
        requires
            self.wf(),
        ensures
            view_wf(self@),
    {
        self.memory.lemma_size();
        self.csr_handle.lemma_size();
    }

    /// Read a register's value (for inspection; the processor moves register
    /// values over buses).
    pub fn read_register_value(&self, reg: usize) -> (r: u32)
        requires
            self.wf(),
            reg < REGISTER_COUNT,
        ensures
            r == self@.regs[reg as int],
    {
        self.registers[reg].get_value()
    }

    /// The program counter.
    pub fn get_program_counter(&self) -> (r: u32)
        ensures
            r == self@.pc,
    {
        self.program_counter.value
    }

    /// Point the program counter at `pc`, between instructions.
    pub fn set_program_counter(&mut self, pc: u32)
        requires
            old(self).wf(),
            old(self)@.mode == ChipMode::LoadInstruction,
        ensures
            final(self).wf(),
            final(self)@ == (ChipView { pc, ..old(self)@ }),
            final(self).debug_flag() == old(self).debug_flag(),
    {
        self.program_counter.value = pc;
    }

    /// Whether a debug snapshot is wanted after each tick.
    pub fn get_debug_display(&self) -> (r: bool)
        ensures
            r == self.debug_flag(),
    {
        self.debug_display
    }

    /// Ask for, or stop asking for, a debug snapshot after each tick.
    pub fn set_debug_display(&mut self, on: bool)
        requires
            old(self).wf(),
        ensures
            final(self).wf(),
            final(self)@ == old(self)@,
            final(self).debug_flag() == on,
    {
        self.debug_display = on;
    }

    /// The current state of the control state machine.
    pub fn mode(&self) -> (r: ChipMode)
        ensures
            r == self@.mode,
    {
        self.mode
    }

    /// Read memory at the address on the address bus, in the current memory
    /// mode, onto the data bus.
    pub fn memory_read(&mut self)
        requires
            old(self).wf(),
            readable_mode(old(self).memory_mode_code()),
        ensures
            final(self).wf(),
            final(self)@ == old(self)@,
            final(self).debug_flag() == old(self).debug_flag(),
            final(self).address_bus() == old(self).address_bus(),
            final(self).alu_output_bus() == old(self).alu_output_bus(),
            final(self).memory_mode_code() == old(self).memory_mode_code(),
            final(self).data_bus() == load_value(
                old(self)@.memory,
                old(self).memory_mode_code(),
                old(self).address_bus(),
            ),
    {
        let addr = self.ram_addr_bus.read_value();
        let value = match self.memory_mode {
            0b000 => sign_extend(self.memory.read_byte(addr) as u32, 7),
            0b001 => sign_extend(self.memory.read_u16(addr) as u32, 15),
            0b010 => self.memory.read_u32(addr),
            0b100 => self.memory.read_byte(addr) as u32,
            _ => self.memory.read_u16(addr) as u32,
        };
        self.data.enable_value(value);
    }

    /// Write the data bus to memory at the address on the address bus, sized
    /// by the current memory mode.
    pub fn memory_write(&mut self)
        requires
            old(self).wf(),
            writable_mode(old(self).memory_mode_code()),
        ensures
            final(self).wf(),
            final(self)@ == (ChipView {
                memory: store_bytes(
                    old(self)@.memory,
                    old(self).memory_mode_code(),
                    old(self).address_bus(),
                    old(self).data_bus(),
                ),
                ..old(self)@
            }),
            final(self).debug_flag() == old(self).debug_flag(),
            final(self).address_bus() == old(self).address_bus(),
            final(self).alu_output_bus() == old(self).alu_output_bus(),
            final(self).data_bus() == old(self).data_bus(),
            final(self).memory_mode_code() == old(self).memory_mode_code(),
    {
        let addr = self.ram_addr_bus.read_value();
        let val = self.data.read_value();
        let size = self.memory_mode & 0b11;
        assert((val & 0xFF) as u8 == byte_of(val, 0)) by (bit_vector);
        assert(byte_of(((val & 0xFFFF) as u16) as u32, 0) == byte_of(val, 0) && byte_of(
            ((val & 0xFFFF) as u16) as u32,
            1,
        ) == byte_of(val, 1)) by (bit_vector);
        if size == 0b00 {
            self.memory.write_byte(addr, (val & 0xFF) as u8);
        } else if size == 0b01 {
            self.memory.write_u16(addr, (val & 0xFFFF) as u16);
        } else {
            self.memory.write_u32(addr, val);
        }
        assert(self@.memory =~= store_bytes(old(self)@.memory, old(self).memory_mode, addr, val));
        assert(self@.regs =~= old(self)@.regs);
    }

    /// Read the CSR at the address on the address bus onto the data bus.
    pub fn csr_read(&mut self)
        requires
            old(self).wf(),
            old(self).address_bus() < CSR_COUNT,
        ensures
            final(self).wf(),
            final(self)@ == old(self)@,
            final(self).debug_flag() == old(self).debug_flag(),
            final(self).address_bus() == old(self).address_bus(),
            final(self).alu_output_bus() == old(self).alu_output_bus(),
            final(self).memory_mode_code() == old(self).memory_mode_code(),
            final(self).data_bus() == old(self)@.csr[old(self).address_bus() as int],
    {
        let addr = self.ram_addr_bus.read_value();
        let value = self.csr_handle.read_csr(addr);
        self.data.enable_value(value);
    }

    /// Write the data bus to the CSR at the address on the address bus.
    pub fn csr_write(&mut self)
        requires
            old(self).wf(),
            old(self).address_bus() < CSR_COUNT,
        ensures
            final(self).wf(),
            final(self)@ == (ChipView {
                csr: old(self)@.csr.update(old(self).address_bus() as int, old(self).data_bus()),
                ..old(self)@
            }),
            final(self).debug_flag() == old(self).debug_flag(),
            final(self).address_bus() == old(self).address_bus(),
            final(self).alu_output_bus() == old(self).alu_output_bus(),
            final(self).data_bus() == old(self).data_bus(),
            final(self).memory_mode_code() == old(self).memory_mode_code(),
    {
        let addr = self.ram_addr_bus.read_value();
        let val = self.data.read_value();
        self.csr_handle.write_csr(addr, val);
    }

    /// Latch the data bus into register `rd`.
    fn latch_data_into(&mut self, rd: u8)
        requires
            old(self).wf(),
            rd < REGISTER_COUNT,
        ensures
            final(self).wf(),
            final(self)@ == (ChipView {
                regs: write_reg(old(self)@.regs, rd, old(self).data@),
                ..old(self)@
            }),
            final(self).debug_display == old(self).debug_display,
            final(self).data == old(self).data,
            final(self).memory_mode == old(self).memory_mode,
    {
        let mut slot = self.registers[rd as usize];
        slot.set_from_bus(&self.data);
        self.registers.set(rd as usize, slot);
        assert(self@.regs =~= write_reg(old(self)@.regs, rd, old(self).data@));
    }

    /// Fetch the instruction at the program counter and compute the address
    /// of the next one.
    fn load_instruction(&mut self)
        requires
            old(self).wf(),
            old(self).mode == ChipMode::LoadInstruction,
        ensures
            final(self).wf(),
            final(self)@ == (ChipView { clock: old(self).clock, ..step(old(self)@) }),
            final(self).debug_display == old(self).debug_display,
    {
        self.program_counter.enable_on_bus(&mut self.ram_addr_bus);
        self.memory_mode = MEMORY_MODE_WORD;
        self.memory_read();
        self.inst.set_from_bus(&self.data);

        self.program_counter.enable_on_bus(&mut self.src0_bus);
        self.src1_bus.enable_value(4);
        self.alu.mode = ALU_MODE_ADD;
        self.alu.sub_flag = false;
        self.alu.tick(&self.src0_bus, &self.src1_bus, &mut self.alu_out_bus);
        self.output2.set_from_bus(&self.alu_out_bus);

        self.mode = ChipMode::ExecuteInstruction;
    }

    /// Read memory at the computed address into the destination register.
    fn load_data(&mut self)
        requires
            old(self).wf(),
            old(self).mode == ChipMode::LoadData,
            step_defined(old(self)@),
        ensures
            final(self).wf(),
            final(self)@ == (ChipView { clock: old(self).clock, ..step(old(self)@) }),
            final(self).debug_display == old(self).debug_display,
    {
        let instruction = Instruction::new(self.inst.get_value());
        self.output.enable_on_bus(&mut self.ram_addr_bus);
        self.memory_mode = instruction.funct3;
        self.memory_read();
        self.latch_data_into(instruction.rd);
        self.mode = ChipMode::LoadInstruction;
    }

    /// Write the ALU result into the destination register.
    fn store_result(&mut self)
        requires
            old(self).wf(),
            old(self).mode == ChipMode::StoreResult,
            step_defined(old(self)@),
        ensures
            final(self).wf(),
            final(self)@ == (ChipView { clock: old(self).clock, ..step(old(self)@) }),
            final(self).debug_display == old(self).debug_display,
    {
        let instruction = Instruction::new(self.inst.get_value());
        self.output.enable_on_bus(&mut self.data);
        self.latch_data_into(instruction.rd);
        self.mode = ChipMode::LoadInstruction;
    }

    /// Jump to the computed target, linking the next address into the
    /// destination register.
    fn execute_jump(&mut self)
        requires
            old(self).wf(),
            old(self).mode == ChipMode::ExecuteJump,
            step_defined(old(self)@),
        ensures
            final(self).wf(),
            final(self)@ == (ChipView { clock: old(self).clock, ..step(old(self)@) }),
            final(self).debug_display == old(self).debug_display,
    {
        let instruction = Instruction::new(self.inst.get_value());
        self.output.enable_on_bus(&mut self.ram_addr_bus);
        self.program_counter.set_from_bus(&self.ram_addr_bus);

        self.output2.enable_on_bus(&mut self.data);
        self.latch_data_into(instruction.rd);
        self.mode = ChipMode::LoadInstruction;
    }

    /// Decide a branch from the captured comparison; a taken branch computes
    /// its target.
    fn branch_check(&mut self)
        requires
            old(self).wf(),
            old(self).mode == ChipMode::BranchCheck,
            step_defined(old(self)@),
        ensures
            final(self).wf(),
            final(self)@ == (ChipView { clock: old(self).clock, ..step(old(self)@) }),
            final(self).debug_display == old(self).debug_display,
    {
        let mut next_mode = ChipMode::ExecuteBranch;
        let instruction = Instruction::new(self.inst.get_value());
        let mut branch_cond = if instruction.funct3 & 0b110 == 0b000 {
            self.output.value == 0
        } else {
            self.output.value == 1
        };
        if instruction.funct3 & 0b001 > 0 {
            branch_cond = !branch_cond;
        }
        if branch_cond {
            self.program_counter.enable_on_bus(&mut self.src0_bus);
            self.immediate.enable_on_bus(&mut self.src1_bus);
            self.alu.mode = ALU_MODE_ADD;
            self.alu.sub_flag = false;
            self.alu.tick(&self.src0_bus, &self.src1_bus, &mut self.alu_out_bus);
            self.output.set_from_bus(&self.alu_out_bus);
        } else {
            self.output2.enable_on_bus(&mut self.data);
            self.program_counter.set_from_bus(&self.data);
            next_mode = ChipMode::LoadInstruction;
        }
        self.mode = next_mode;
    }

    /// Commit a taken branch's target to the program counter.
    fn execute_branch(&mut self)
        requires
            old(self).wf(),
            old(self).mode == ChipMode::ExecuteBranch,
        ensures
            final(self).wf(),
            final(self)@ == (ChipView { clock: old(self).clock, ..step(old(self)@) }),
            final(self).debug_display == old(self).debug_display,
    {
        self.output.enable_on_bus(&mut self.data);
        self.program_counter.set_from_bus(&self.data);
        self.mode = ChipMode::LoadInstruction;
    }

    /// Decode the instruction and drive the ALU for it; stores and traps
    /// complete here, other instructions advance the program counter unless
    /// they jump or branch.
    #[verifier::rlimit(50)]
    fn execute_instruction(&mut self)
        requires
            old(self).wf(),
            old(self).mode == ChipMode::ExecuteInstruction,
            old(self).alu_out_bus@ == wrapped_sum(old(self).program_counter.value, 4),
            step_defined(old(self)@),
        ensures
            final(self).wf(),
            final(self)@ == (ChipView { clock: old(self).clock, ..step(old(self)@) }),
            final(self).debug_display == old(self).debug_display,
    {
        let ghost v = self@;
        let mut next_mode = ChipMode::StoreResult;
        let instruction = Instruction::new(self.inst.get_value());
        let rs1 = instruction.rs1 as usize;
        let rs2 = instruction.rs2 as usize;
        self.immediate.value = instruction.immediate;
        if instruction.opcode == OPCODE_OP_IMM {
            self.registers[rs1].enable_on_bus(&mut self.src0_bus);
            self.immediate.enable_on_bus(&mut self.src1_bus);
            self.alu.mode = instruction.funct3 as usize;
            self.alu.sub_flag = (instruction.funct7 & 0b0100000) > 0 && instruction.funct3 == 0b101;
            self.alu.tick(&self.src0_bus, &self.src1_bus, &mut self.alu_out_bus);
        } else if instruction.opcode == OPCODE_OP {
            self.registers[rs1].enable_on_bus(&mut self.src0_bus);
            self.registers[rs2].enable_on_bus(&mut self.src1_bus);
            self.alu.mode = instruction.funct3 as usize;
            self.alu.sub_flag = (instruction.funct7 & 0b0100000) > 0;
            self.alu.tick(&self.src0_bus, &self.src1_bus, &mut self.alu_out_bus);
        } else if instruction.opcode == OPCODE_LUI {
            self.immediate.enable_on_bus(&mut self.src0_bus);
            self.registers[0].enable_on_bus(&mut self.src1_bus);
            self.alu.mode = ALU_MODE_ADD;
            self.alu.sub_flag = false;
            self.alu.tick(&self.src0_bus, &self.src1_bus, &mut self.alu_out_bus);
        } else if instruction.opcode == OPCODE_AUIPC {
            self.immediate.enable_on_bus(&mut self.src0_bus);
            self.program_counter.enable_on_bus(&mut self.src1_bus);
            self.alu.mode = ALU_MODE_ADD;
            self.alu.sub_flag = false;
            self.alu.tick(&self.src0_bus, &self.src1_bus, &mut self.alu_out_bus);
        } else if instruction.opcode == OPCODE_LOAD {
            self.registers[rs1].enable_on_bus(&mut self.src0_bus);
            self.immediate.enable_on_bus(&mut self.src1_bus);
            self.alu.mode = ALU_MODE_ADD;
            self.alu.sub_flag = false;
            self.alu.tick(&self.src0_bus, &self.src1_bus, &mut self.alu_out_bus);
            next_mode = ChipMode::LoadData;
        } else if instruction.opcode == OPCODE_STORE {
            self.registers[rs1].enable_on_bus(&mut self.src0_bus);
            self.immediate.enable_on_bus(&mut self.src1_bus);
            self.alu.mode = ALU_MODE_ADD;
            self.alu.sub_flag = false;
            self.alu.tick(&self.src0_bus, &self.src1_bus, &mut self.alu_out_bus);

            self.output.set_from_bus(&self.alu_out_bus);
            self.output.enable_on_bus(&mut self.ram_addr_bus);

            self.registers[rs2].enable_on_bus(&mut self.data);
            next_mode = ChipMode::LoadInstruction;
            self.mode = next_mode;
            self.memory_mode = instruction.funct3;
            self.memory_write();
        } else if instruction.opcode == OPCODE_SYSTEM {
            if instruction.funct3 == 0b000 {
                // every trap enters the handler at the trap vector
                self.ram_addr_bus.enable_value(CsrAddresses::Mtvec.address());
                self.csr_read();
                self.program_counter.set_from_bus(&self.data);
                next_mode = ChipMode::LoadInstruction;
            }
        } else if instruction.opcode == OPCODE_JAL {
            self.program_counter.enable_on_bus(&mut self.src0_bus);
            self.immediate.enable_on_bus(&mut self.src1_bus);
            self.alu.mode = ALU_MODE_ADD;
            self.alu.sub_flag = false;
            self.alu.tick(&self.src0_bus, &self.src1_bus, &mut self.alu_out_bus);
            next_mode = ChipMode::ExecuteJump;
        } else if instruction.opcode == OPCODE_JALR {
            self.immediate.enable_on_bus(&mut self.src0_bus);
            self.registers[rs1].enable_on_bus(&mut self.src1_bus);
            self.alu.mode = ALU_MODE_ADD;
            self.alu.sub_flag = false;
            self.alu.tick(&self.src0_bus, &self.src1_bus, &mut self.alu_out_bus);
            next_mode = ChipMode::ExecuteJump;
        } else {
            self.registers[rs1].enable_on_bus(&mut self.src0_bus);
            self.registers[rs2].enable_on_bus(&mut self.src1_bus);
            if instruction.funct3 & 0b110 == 0b000 {
                // equal / not equal: the difference is zero exactly when the operands match
                self.alu.mode = ALU_MODE_ADD;
                self.alu.sub_flag = true;
            } else if instruction.funct3 & 0b110 == 0b100 {
                self.alu.mode = ALU_MODE_SLT;
                self.alu.sub_flag = false;
            } else if instruction.funct3 & 0b110 == 0b110 {
                self.alu.mode = ALU_MODE_SLTU;
                self.alu.sub_flag = false;
            }
            self.alu.tick(&self.src0_bus, &self.src1_bus, &mut self.alu_out_bus);
            self.output.set_from_bus(&self.data);
            next_mode = ChipMode::BranchCheck;
        }
        if next_mode != ChipMode::BranchCheck && next_mode != ChipMode::ExecuteJump && next_mode
            != ChipMode::LoadInstruction {
            // everything else moves on to the next instruction
            self.output2.enable_on_bus(&mut self.data);
            self.program_counter.set_from_bus(&self.data);
        }
        self.output.set_from_bus(&self.alu_out_bus);
        self.mode = next_mode;
        assert(self@.regs =~= v.regs);
    }

    /// Advance the processor by one clock tick: the ALU re-evaluates, then
    /// the current state's micro-step runs.
    pub fn clock_processor(&mut self)
        requires
            old(self).wf(),
            step_defined(old(self)@),
        ensures
            final(self).wf(),
            final(self)@ == step(old(self)@),
            final(self).debug_flag() == old(self).debug_flag(),
    {
        // the ALU is combinational: it follows its inputs on every tick
        self.alu.tick(&self.src0_bus, &self.src1_bus, &mut self.alu_out_bus);
        match self.mode {
            ChipMode::LoadInstruction => self.load_instruction(),
            ChipMode::ExecuteInstruction => self.execute_instruction(),
            ChipMode::LoadData => self.load_data(),
            ChipMode::StoreResult => self.store_result(),
            ChipMode::ExecuteJump => self.execute_jump(),
            ChipMode::BranchCheck => self.branch_check(),
            ChipMode::ExecuteBranch => self.execute_branch(),
        }
        self.clock = if self.clock < usize::MAX {
            self.clock + 1
        } else {
            0
        };
    }

    /// Clock the processor until it is about to fetch the next instruction.
    pub fn clock_to_instruction(&mut self)
        requires
            old(self).wf(),
            run_defined(old(self)@),
        ensures
            final(self).wf(),
            final(self)@ == run_to_boundary(old(self)@),
            final(self)@.mode == ChipMode::LoadInstruction,
            final(self).debug_flag() == old(self).debug_flag(),
    {
        proof {
            reveal(run_to_boundary);
            reveal(run_defined);
        }
        let ghost target = run_to_boundary(self@);
        self.clock_processor();
        while self.mode != ChipMode::LoadInstruction
            invariant
                self.wf(),
                finish(self@) == target,
                finish_defined(self@),
                self.debug_flag() == old(self).debug_flag(),
            decreases ticks_left(self@.mode),
        {
            proof {
                lemma_step_progress(self@);
            }
            self.clock_processor();
        }
    }

    /// Write `data` into memory byte by byte from `addr` upward, wrapping
    /// around the address space.
    pub fn write_to_memory(&mut self, addr: u32, data: Vec<u8>)
        requires
            old(self).wf(),
        ensures
            final(self).wf(),
            final(self)@ == (ChipView {
                memory: load_image(old(self)@.memory, addr, data@),
                ..old(self)@
            }),
            final(self).debug_flag() == old(self).debug_flag(),
    {
        let mut i: usize = 0;
        while i < data.len()
            invariant
                i <= data@.len(),
                self.wf(),
                self@ == (ChipView {
                    memory: load_image(old(self)@.memory, addr, data@.take(i as int)),
                    ..old(self)@
                }),
                self.debug_flag() == old(self).debug_flag(),
            decreases data@.len() - i,
        {
            proof {
                assert(data@.take(i + 1).drop_last() =~= data@.take(i as int));
            }
            self.memory.write_byte(addr.wrapping_add(i as u32), data[i]);
            i = i + 1;
        }
        assert(data@.take(i as int) =~= data@);
    }

    /// Whether the next tick stays inside the modelled architecture; a tick
    /// where this is false would meet an unknown opcode, memory access size
    /// or branch comparison.
    pub fn tick_is_defined(&self) -> (r: bool)
        requires
            self.wf(),
        ensures
            r == step_defined(self@),
    {
        let word = self.inst.value;
        let opcode = (word & 0x7F) as u8;
        let funct3 = ((word >> 12) & 0x7) as u8;
        match self.mode {
            ChipMode::LoadInstruction => true,
            ChipMode::ExecuteBranch => true,
            ChipMode::ExecuteInstruction => known_opcode(opcode) && (opcode != OPCODE_STORE
                || funct3 & 0b11 != 0b11),
            ChipMode::LoadData => known_opcode(opcode) && (funct3 == 0b000 || funct3 == 0b001
                || funct3 == 0b010 || funct3 == 0b100 || funct3 == 0b101),
            ChipMode::BranchCheck => known_opcode(opcode) && funct3 & 0b110 != 0b010,
            _ => known_opcode(opcode),
        }
    }

    /// Whether running to the next instruction boundary stays inside the
    /// modelled architecture, as `clock_to_instruction` requires.
    pub fn run_is_defined(&self) -> (r: bool)
        requires
            self.wf(),
        ensures
            r == run_defined(self@),
    {
        proof {
            lemma_run_defined(self@);
        }
        match self.mode {
            ChipMode::LoadInstruction => {
                let word = self.memory.read_u32(self.program_counter.value);
                word_runs(word)
            },
            ChipMode::ExecuteInstruction => word_runs(self.inst.value),
            ChipMode::ExecuteBranch => true,
            _ => self.tick_is_defined(),
        }
    }

    /// The values inside the processor: registers, holding registers, buses,
    /// clock count, state and the ALU's and memory's modes.
    pub fn snapshot(&self) -> (r: ChipSnapshot)
        requires
            self.wf(),
        ensures
            r.registers@ == self@.regs,
            r.program_counter == self@.pc,
            r.output == self@.output,
            r.output2 == self@.output2,
            r.instruction == self@.inst,
            r.src0_bus == self.src0_bus_value(),
            r.src1_bus == self.src1_bus_value(),
            r.alu_out_bus == self.alu_output_bus(),
            r.address_bus == self.address_bus(),
            r.data_bus == self.data_bus(),
            r.clock == self@.clock,
            r.mode == self@.mode,
            r.alu_mode == self.alu_mode(),
            r.alu_sub_flag == self.alu_sub_flag(),
            r.memory_mode == self.memory_mode_code(),
    {
        let mut registers: Vec<u32> = Vec::new();
        let mut i: usize = 0;
        while i < REGISTER_COUNT
            invariant
                i <= REGISTER_COUNT,
                self.wf(),
                registers@ == self@.regs.take(i as int),
            decreases REGISTER_COUNT - i,
        {
            registers.push(self.read_register_value(i));
            i = i + 1;
            assert(registers@ =~= self@.regs.take(i as int));
        }
        assert(registers@ =~= self@.regs);
        ChipSnapshot {
            registers,
            program_counter: self.program_counter.value,
            output: self.output.value,
            output2: self.output2.value,
            instruction: self.inst.value,
            src0_bus: self.src0_bus.read_value(),
            src1_bus: self.src1_bus.read_value(),
            alu_out_bus: self.alu_out_bus.read_value(),
            address_bus: self.ram_addr_bus.read_value(),
            data_bus: self.data.read_value(),
            clock: self.clock,
            mode: self.mode,
            alu_mode: self.alu.mode,
            alu_sub_flag: self.alu.sub_flag,
            memory_mode: self.memory_mode,
        }
    }
}

/// The four bytes of a word starting at `a` lie in four different memory cells.
proof fn lemma_word_cells(a: u32)
    ensures
        0 <= cell(a) < CHIP_1M_SIZE,
        0 <= cell(offset_address(a, 1)) < CHIP_1M_SIZE,
        0 <= cell(offset_address(a, 2)) < CHIP_1M_SIZE,
        0 <= cell(offset_address(a, 3)) < CHIP_1M_SIZE,
        cell(a) != cell(offset_address(a, 1)),
        cell(a) != cell(offset_address(a, 2)),
        cell(a) != cell(offset_address(a, 3)),
        cell(offset_address(a, 1)) != cell(offset_address(a, 2)),
        cell(offset_address(a, 1)) != cell(offset_address(a, 3)),
        cell(offset_address(a, 2)) != cell(offset_address(a, 3)),
{
    let b1 = offset_address(a, 1);
    let b2 = offset_address(a, 2);
    let b3 = offset_address(a, 3);
    assert(b1 == a + 1 || b1 + 0x1_0000_0000 == a + 1);
    assert(b2 == a + 2 || b2 + 0x1_0000_0000 == a + 2);
    assert(b3 == a + 3 || b3 + 0x1_0000_0000 == a + 3);
    assert(a & 0xFFFFF < 0x100000 && b1 & 0xFFFFF < 0x100000 && b2 & 0xFFFFF < 0x100000 && b3
        & 0xFFFFF < 0x100000) by (bit_vector);
    assert(a & 0xFFFFF != b1 & 0xFFFFF && a & 0xFFFFF != b2 & 0xFFFFF && a & 0xFFFFF != b3
        & 0xFFFFF && b1 & 0xFFFFF != b2 & 0xFFFFF && b1 & 0xFFFFF != b3 & 0xFFFFF && b2 & 0xFFFFF
        != b3 & 0xFFFFF) by (bit_vector)
        requires
            b1 == a + 1 || b1 + 0x1_0000_0000 == a + 1,
            b2 == a + 2 || b2 + 0x1_0000_0000 == a + 2,
            b3 == a + 3 || b3 + 0x1_0000_0000 == a + 3,
    ;
}

/// What a signed load of width `size` (0: byte, 1: half word, 2: word) gives
/// back after a store of `val` of the same width: the stored bits, sign
/// extended from the top bit of that width.
pub open spec fn stored_then_loaded(size: u8, val: u32) -> u32 {
    if size == 0 {
        sign_extended(val & 0xFF, 7)
    } else if size == 1 {
        sign_extended(val & 0xFFFF, 15)
    } else {
        val
    }
}

/// Reading back what a store wrote, at the same address and width, yields
/// the stored value, sign extended from the top bit of the width.
pub proof fn lemma_memory_round_trip(mem: Seq<u8>, size: u8, addr: u32, val: u32)
    requires
        mem.len() == CHIP_1M_SIZE,
        size < 3,
    ensures
        load_value(store_bytes(mem, size, addr, val), size, addr) == stored_then_loaded(size, val),
{
    lemma_word_cells(addr);
    assert(size & 0b11 == size) by (bit_vector)
        requires
            size < 3,
    ;
    let m = store_bytes(mem, size, addr, val);
    if size == 0 {
        assert(mem_byte(m, addr) == byte_of(val, 0));
        assert(byte_of(val, 0) as u32 == val & 0xFF) by (bit_vector);
    } else if size == 1 {
        assert(mem_byte(m, addr) == byte_of(val, 0));
        assert(mem_byte(m, offset_address(addr, 1)) == byte_of(val, 1));
        assert(((byte_of(val, 0) as u16) | ((byte_of(val, 1) as u16) << 8)) as u32 == val & 0xFFFF)
            by (bit_vector);
    } else {
        assert(mem_byte(m, addr) == byte_of(val, 0));
        assert(mem_byte(m, offset_address(addr, 1)) == byte_of(val, 1));
        assert(mem_byte(m, offset_address(addr, 2)) == byte_of(val, 2));
        assert(mem_byte(m, offset_address(addr, 3)) == byte_of(val, 3));
        assert((byte_of(val, 0) as u32) | ((byte_of(val, 1) as u32) << 8) | ((byte_of(val, 2)
            as u32) << 16) | ((byte_of(val, 3) as u32) << 24) == val) by (bit_vector);
    }
}

/// Store then load: after the execute step of a store of width `w` (byte,
/// half word or word), the load step of a signed load of width `w` from the
/// address the store used puts the stored value, sign extended from the top
/// bit of the width, into the load's destination register.
pub proof fn lemma_store_then_load(v: ChipView, u: ChipView)
    requires
        view_wf(v),
        v.mode == ChipMode::ExecuteInstruction,
        decode(v.inst).opcode == OPCODE_STORE,
        writable_mode(decode(v.inst).funct3),
        view_wf(u),
        u.mode == ChipMode::LoadData,
        decode(u.inst).opcode == OPCODE_LOAD,
        decode(u.inst).funct3 == decode(v.inst).funct3 & 0b11,
        u.memory == step(v).memory,
        u.output == step(v).output,
    ensures
        step(u).regs == write_reg(
            u.regs,
            decode(u.inst).rd,
            stored_then_loaded(decode(u.inst).funct3, v.regs[decode(v.inst).rs2 as int]),
        ),
{
    let s = decode(v.inst);
    let f = s.funct3;
    let size = decode(u.inst).funct3;
    assert(f & 0b11 != 0b11 ==> (f & 0b11) & 0b11 == f & 0b11 && f & 0b11 < 3) by (bit_vector);
    let addr = wrapped_sum(v.regs[s.rs1 as int], s.immediate);
    let val = v.regs[s.rs2 as int];
    assert(store_bytes(v.memory, s.funct3, addr, val) == store_bytes(v.memory, size, addr, val));
    lemma_memory_round_trip(v.memory, size, addr, val);
}

/// The comparison the ALU makes for a branch, read by the branch check,
/// decides the branch as RV32I does, for all six comparison codes.
pub proof fn lemma_branch_condition(funct3: u8, a: u32, b: u32)
    requires
        funct3 < 8,
        funct3 & 0b110 != 0b010,
    ensures
        branch_decision(funct3, branch_compare(funct3, a, b)) == branch_taken(funct3, a, b),
{
    assert(funct3 & 0b110 == 0 || funct3 & 0b110 == 0b010 || funct3 & 0b110 == 0b100 || funct3
        & 0b110 == 0b110) by (bit_vector);
}

/// A branch ends with the program counter at its target when its condition
/// holds and at the next instruction (pc + 4) when it does not; registers and
/// memory are left alone.
pub proof fn lemma_branch_target(v: ChipView)
    requires
        view_wf(v),
        v.mode == ChipMode::LoadInstruction,
        opcode_of(mem_word(v.memory, v.pc)) == OPCODE_BRANCH,
        decode(mem_word(v.memory, v.pc)).funct3 & 0b110 != 0b010,
    ensures
        run_defined(v),
        ({
            let i = decode(mem_word(v.memory, v.pc));
            let r = run_to_boundary(v);
            &&& r.pc == if branch_taken(i.funct3, v.regs[i.rs1 as int], v.regs[i.rs2 as int]) {
                wrapped_sum(v.pc, i.immediate)
            } else {
                wrapped_sum(v.pc, 4)
            }
            &&& r.regs == v.regs
            &&& r.memory == v.memory
            &&& r.mode == ChipMode::LoadInstruction
        }),
{
    reveal(run_to_boundary);
    reveal(run_defined);
    let w = mem_word(v.memory, v.pc);
    let i = decode(w);
    assert((w >> 12) & 0x7 < 8) by (bit_vector);
    lemma_branch_condition(i.funct3, v.regs[i.rs1 as int], v.regs[i.rs2 as int]);
    let s1 = step(v);
    let s2 = step(s1);
    assert(s2.mode == ChipMode::BranchCheck);
    let s3 = step(s2);
    if s3.mode == ChipMode::LoadInstruction {
        assert(finish(s3) == s3);
        assert(finish_defined(s3));
    } else {
        let s4 = step(s3);
        assert(s4.mode == ChipMode::LoadInstruction);
        assert(finish(s4) == s4);
        assert(finish_defined(s4));
        assert(finish(s3) == finish(s4));
        assert(finish_defined(s3));
    }
    assert(finish(s2) == finish(s3));
    assert(finish_defined(s2));
    assert(finish(s1) == finish(s2));
    assert(finish_defined(s1));
}

/// Jump-and-link-register jumps to rs1 + immediate and writes the address of
/// the next instruction (pc + 4) into its destination register; with
/// destination zero the write is dropped and register zero stays zero.
pub proof fn lemma_jalr_links(v: ChipView)
    requires
        view_wf(v),
        v.mode == ChipMode::LoadInstruction,
        opcode_of(mem_word(v.memory, v.pc)) == OPCODE_JALR,
    ensures
        run_defined(v),
        ({
            let i = decode(mem_word(v.memory, v.pc));
            let r = run_to_boundary(v);
            &&& r.pc == wrapped_sum(i.immediate, v.regs[i.rs1 as int])
            &&& r.regs == write_reg(v.regs, i.rd, wrapped_sum(v.pc, 4))
            &&& r.regs[0] == 0
            &&& r.memory == v.memory
            &&& r.mode == ChipMode::LoadInstruction
        }),
{
    reveal(run_to_boundary);
    reveal(run_defined);
    let w = mem_word(v.memory, v.pc);
    assert((w >> 7) & 0x1F < 32) by (bit_vector);
    let s1 = step(v);
    let s2 = step(s1);
    assert(s2.mode == ChipMode::ExecuteJump);
    let s3 = step(s2);
    assert(s3.mode == ChipMode::LoadInstruction);
    assert(finish(s3) == s3);
    assert(finish_defined(s3));
    assert(finish(s2) == finish(s3));
    assert(finish_defined(s2));
    assert(finish(s1) == finish(s2));
    assert(finish_defined(s1));
}

/// A trap (a system instruction with funct3 zero) ends with the program
/// counter at the value of the trap-vector CSR, registers and memory untouched.
pub proof fn lemma_trap_enters_vector(v: ChipView)
    requires
        view_wf(v),
        v.mode == ChipMode::LoadInstruction,
        opcode_of(mem_word(v.memory, v.pc)) == OPCODE_SYSTEM,
        decode(mem_word(v.memory, v.pc)).funct3 == 0,
    ensures
        run_defined(v),
        ({
            let r = run_to_boundary(v);
            &&& r.pc == v.csr[MTVEC_ADDRESS as int]
            &&& r.regs == v.regs
            &&& r.memory == v.memory
            &&& r.csr == v.csr
            &&& r.mode == ChipMode::LoadInstruction
        }),
{
    reveal(run_to_boundary);
    reveal(run_defined);
    let s1 = step(v);
    let s2 = step(s1);
    assert(s2.mode == ChipMode::LoadInstruction);
    assert(finish(s2) == s2);
    assert(finish_defined(s2));
    assert(finish(s1) == finish(s2));
    assert(finish_defined(s1));
}

/// Number of bytes a store of width `size` (0: byte, 1: half word, 2: word) writes.
pub open spec fn width_bytes(size: u8) -> u32 {
    if size == 0 {
        1
    } else if size == 1 {
        2
    } else {
        4
    }
}

/// A store instruction writes its source register at rs1 + immediate, in
/// the width its funct3 gives.
pub proof fn lemma_store_instruction(v: ChipView)
    requires
        view_wf(v),
        v.mode == ChipMode::LoadInstruction,
        decode(mem_word(v.memory, v.pc)).opcode == OPCODE_STORE,
        writable_mode(decode(mem_word(v.memory, v.pc)).funct3),
    ensures
        run_defined(v),
        ({
            let s = decode(mem_word(v.memory, v.pc));
            run_to_boundary(v).memory == store_bytes(
                v.memory,
                s.funct3,
                wrapped_sum(v.regs[s.rs1 as int], s.immediate),
                v.regs[s.rs2 as int],
            )
        }),
{
    reveal(run_to_boundary);
    reveal(run_defined);
    lemma_run_defined(v);
    let s1 = step(v);
    let s2 = step(s1);
    assert(s2.mode == ChipMode::LoadInstruction);
    assert(finish(s2) == s2);
    assert(finish(s1) == finish(s2));
}

/// A load instruction puts what memory mode funct3 reads at rs1 + immediate
/// into its destination register.
pub proof fn lemma_load_instruction(u: ChipView)
    requires
        view_wf(u),
        u.mode == ChipMode::LoadInstruction,
        decode(mem_word(u.memory, u.pc)).opcode == OPCODE_LOAD,
        readable_mode(decode(mem_word(u.memory, u.pc)).funct3),
    ensures
        run_defined(u),
        ({
            let l = decode(mem_word(u.memory, u.pc));
            run_to_boundary(u).regs == write_reg(
                u.regs,
                l.rd,
                load_value(u.memory, l.funct3, wrapped_sum(u.regs[l.rs1 as int], l.immediate)),
            )
        }),
{
    reveal(run_to_boundary);
    reveal(run_defined);
    lemma_run_defined(u);
    let s1 = step(u);
    let s2 = step(s1);
    assert(s2.mode == ChipMode::LoadData);
    let s3 = step(s2);
    assert(s3.mode == ChipMode::LoadInstruction);
    assert(finish(s3) == s3);
    assert(finish(s2) == finish(s3));
    assert(finish(s1) == finish(s2));
}

/// Two memories that agree on the bytes a read of width `size` at `addr`
/// covers give the same signed read there.
proof fn lemma_same_bytes_same_load(m: Seq<u8>, m1: Seq<u8>, size: u8, addr: u32)
    requires
        size < 3,
        forall|k: u32|
            k < width_bytes(size) ==> #[trigger] mem_byte(m, offset_address(addr, k)) == mem_byte(
                m1,
                offset_address(addr, k),
            ),
    ensures
        load_value(m, size, addr) == load_value(m1, size, addr),
{
    assert(offset_address(addr, 0) == addr);
    assert(mem_byte(m, offset_address(addr, 0)) == mem_byte(m1, offset_address(addr, 0)));
    if size >= 1 {
        assert(mem_byte(m, offset_address(addr, 1)) == mem_byte(m1, offset_address(addr, 1)));
    }
    if size == 2 {
        assert(mem_byte(m, offset_address(addr, 2)) == mem_byte(m1, offset_address(addr, 2)));
        assert(mem_byte(m, offset_address(addr, 3)) == mem_byte(m1, offset_address(addr, 3)));
    }
}

/// Store then load, across instruction boundaries: once a store of width `w`
/// (byte, half word or word) of `V` at address `A` has run, any later signed
/// load of width `w` from `A` puts `V`, sign extended from the top bit of the
/// width, into its destination register, as long as the bytes at `A` have not
/// been written in between.
pub proof fn lemma_store_then_load_instructions(v: ChipView, u: ChipView)
    requires
        view_wf(v),
        v.mode == ChipMode::LoadInstruction,
        decode(mem_word(v.memory, v.pc)).opcode == OPCODE_STORE,
        decode(mem_word(v.memory, v.pc)).funct3 < 3,
        view_wf(u),
        u.mode == ChipMode::LoadInstruction,
        decode(mem_word(u.memory, u.pc)).opcode == OPCODE_LOAD,
        decode(mem_word(u.memory, u.pc)).funct3 == decode(mem_word(v.memory, v.pc)).funct3,
        wrapped_sum(
            u.regs[decode(mem_word(u.memory, u.pc)).rs1 as int],
            decode(mem_word(u.memory, u.pc)).immediate,
        ) == wrapped_sum(
            v.regs[decode(mem_word(v.memory, v.pc)).rs1 as int],
            decode(mem_word(v.memory, v.pc)).immediate,
        ),
        forall|k: u32|
            k < width_bytes(decode(mem_word(v.memory, v.pc)).funct3) ==> #[trigger] mem_byte(
                u.memory,
                offset_address(
                    wrapped_sum(
                        v.regs[decode(mem_word(v.memory, v.pc)).rs1 as int],
                        decode(mem_word(v.memory, v.pc)).immediate,
                    ),
                    k,
                ),
            ) == mem_byte(
                run_to_boundary(v).memory,
                offset_address(
                    wrapped_sum(
                        v.regs[decode(mem_word(v.memory, v.pc)).rs1 as int],
                        decode(mem_word(v.memory, v.pc)).immediate,
                    ),
                    k,
                ),
            ),
    ensures
        run_defined(v),
        run_defined(u),
        run_to_boundary(u).regs == write_reg(
            u.regs,
            decode(mem_word(u.memory, u.pc)).rd,
            stored_then_loaded(
                decode(mem_word(v.memory, v.pc)).funct3,
                v.regs[decode(mem_word(v.memory, v.pc)).rs2 as int],
            ),
        ),
{
    let s = decode(mem_word(v.memory, v.pc));
    let f = s.funct3;
    assert(f < 3 ==> f & 0b11 != 0b11 && readable_mode(f)) by (bit_vector);
    lemma_store_instruction(v);
    lemma_load_instruction(u);
    let addr = wrapped_sum(v.regs[s.rs1 as int], s.immediate);
    let val = v.regs[s.rs2 as int];
    let m1 = run_to_boundary(v).memory;
    lemma_memory_round_trip(v.memory, f, addr, val);
    lemma_same_bytes_same_load(u.memory, m1, f, addr);
}

/// The state after `n` runs to the next instruction boundary.
pub open spec fn run_boundaries(v: ChipView, n: nat) -> ChipView
    decreases n,
{
    if n == 0 {
        v
    } else {
        run_to_boundary(run_boundaries(v, (n - 1) as nat))
    }
}

/// The all-zero add-immediate (`addi x0, x0, 0`) only moves the program
/// counter on by four.
pub proof fn lemma_nop(v: ChipView)
    requires
        view_wf(v),
        v.mode == ChipMode::LoadInstruction,
        mem_word(v.memory, v.pc) == 0x0000_0013,
    ensures
        run_defined(v),
        ({
            let r = run_to_boundary(v);
            &&& r.pc == wrapped_sum(v.pc, 4)
            &&& r.regs == v.regs
            &&& r.memory == v.memory
            &&& r.csr == v.csr
            &&& r.mode == ChipMode::LoadInstruction
        }),
{
    reveal(run_to_boundary);
    reveal(run_defined);
    let w = mem_word(v.memory, v.pc);
    assert(w & 0x7F == 0x13 && (w >> 7) & 0x1F == 0 && (w >> 12) & 0x7 == 0) by (bit_vector)
        requires
            w == 0x13,
    ;
    lemma_run_defined(v);
    let s1 = step(v);
    let s2 = step(s1);
    assert(s2.mode == ChipMode::StoreResult);
    let s3 = step(s2);
    assert(s3.mode == ChipMode::LoadInstruction);
    assert(finish(s3) == s3);
    assert(finish(s2) == finish(s3));
    assert(finish(s1) == finish(s2));
}

/// One instruction boundary of the no-op / trap program: from address 0 it
/// moves to 4, from address 4 it traps back to 0.
proof fn lemma_nop_trap_boundary(q: ChipView)
    requires
        view_wf(q),
        q.mode == ChipMode::LoadInstruction,
        q.pc == 0 || q.pc == 4,
        mem_word(q.memory, 0) == 0x0000_0013,
        mem_word(q.memory, 4) == 0x0000_0073,
        q.csr[MTVEC_ADDRESS as int] == 0,
    ensures
        run_defined(q),
        ({
            let r = run_to_boundary(q);
            &&& r.pc == if q.pc == 0 {
                4u32
            } else {
                0u32
            }
            &&& r.regs == q.regs
            &&& r.memory == q.memory
            &&& r.csr == q.csr
            &&& r.mode == ChipMode::LoadInstruction
        }),
{
    if q.pc == 4 {
        let w = mem_word(q.memory, q.pc);
        assert(w & 0x7F == 0x73 && (w >> 12) & 0x7 == 0) by (bit_vector)
            requires
                w == 0x73,
        ;
        lemma_trap_enters_vector(q);
    } else {
        lemma_nop(q);
    }
}

/// A program of a no-op at address 0 and a trap at address 4, with the trap
/// vector left at 0, loops forever: after an odd number of instruction
/// boundaries the program counter is 4, after an even number 0, and registers,
/// memory and CSRs never change.
pub proof fn lemma_nop_trap_loop(v: ChipView, n: nat)
    requires
        view_wf(v),
        v.mode == ChipMode::LoadInstruction,
        v.pc == 0,
        mem_word(v.memory, 0) == 0x0000_0013,
        mem_word(v.memory, 4) == 0x0000_0073,
        v.csr[MTVEC_ADDRESS as int] == 0,
    ensures
        forall|m: nat| m < n ==> run_defined(#[trigger] run_boundaries(v, m)),
        ({
            let r = run_boundaries(v, n);
            &&& r.pc == if n % 2 == 1 {
                4u32
            } else {
                0u32
            }
            &&& r.regs == v.regs
            &&& r.memory == v.memory
            &&& r.csr == v.csr
            &&& r.mode == ChipMode::LoadInstruction
        }),
    decreases n,
{
    if n > 0 {
        let p = (n - 1) as nat;
        lemma_nop_trap_loop(v, p);
        let q = run_boundaries(v, p);
        lemma_nop_trap_boundary(q);
        assert(run_boundaries(v, n) == run_to_boundary(q));
        assert((n % 2 == 1) == (p % 2 == 0));
        assert forall|m: nat| m < n implies run_defined(#[trigger] run_boundaries(v, m)) by {
            if m == p {
                assert(run_defined(q));
            }
        }
    }
}

/// Loading the bytes of a no-op and then a trap at address 0 of a cleared
/// memory puts the no-op's word at address 0 and the trap's at address 4.
pub proof fn lemma_nop_trap_image(mem: Seq<u8>)
    requires
        mem == Seq::new(CHIP_1M_SIZE as nat, |i: int| 0u8),
    ensures
        ({
            let m = load_image(mem, 0, seq![0x13u8, 0, 0, 0, 0x73, 0, 0, 0]);
            &&& m.len() == CHIP_1M_SIZE
            &&& mem_word(m, 0) == 0x0000_0013
            &&& mem_word(m, 4) == 0x0000_0073
        }),
{
    let b: Seq<u8> = seq![0x13u8, 0, 0, 0, 0x73, 0, 0, 0];
    let m0 = mem;
    let m1 = load_image(mem, 0, b.take(1));
    let m2 = load_image(mem, 0, b.take(2));
    let m3 = load_image(mem, 0, b.take(3));
    let m4 = load_image(mem, 0, b.take(4));
    let m5 = load_image(mem, 0, b.take(5));
    let m6 = load_image(mem, 0, b.take(6));
    let m7 = load_image(mem, 0, b.take(7));
    let m8 = load_image(mem, 0, b);
    assert(0u32 & 0xFFFFF == 0 && 1u32 & 0xFFFFF == 1 && 2u32 & 0xFFFFF == 2 && 3u32 & 0xFFFFF == 3
        && 4u32 & 0xFFFFF == 4 && 5u32 & 0xFFFFF == 5 && 6u32 & 0xFFFFF == 6 && 7u32 & 0xFFFFF == 7)
        by (bit_vector);
    assert(offset_address(0, 0) == 0 && offset_address(0, 4) == 4 && offset_address(0, 5) == 5
        && offset_address(0, 6) == 6 && offset_address(0, 7) == 7);
    assert(offset_address(0, 1) == 1 && offset_address(0, 2) == 2 && offset_address(0, 3) == 3);
    assert(offset_address(4, 1) == 5 && offset_address(4, 2) == 6 && offset_address(4, 3) == 7);
    assert(b.take(0) =~= Seq::<u8>::empty());
    assert(b.take(1).drop_last() =~= b.take(0));
    assert(b.take(2).drop_last() =~= b.take(1));
    assert(b.take(3).drop_last() =~= b.take(2));
    assert(b.take(4).drop_last() =~= b.take(3));
    assert(b.take(5).drop_last() =~= b.take(4));
    assert(b.take(6).drop_last() =~= b.take(5));
    assert(b.take(7).drop_last() =~= b.take(6));
    assert(b.drop_last() =~= b.take(7));
    assert(load_image(mem, 0, b.take(0)) == m0);
    assert(b.take(1).last() == 0x13u8);
    assert(m1 == m0.update(0, 0x13u8));
    assert(m2 == m1.update(1, 0u8));
    assert(m3 == m2.update(2, 0u8));
    assert(m4 == m3.update(3, 0u8));
    assert(m5 == m4.update(4, 0x73u8));
    assert(m6 == m5.update(5, 0u8));
    assert(m7 == m6.update(6, 0u8));
    assert(m8 == m7.update(7, 0u8));
    assert(m8[0] == 0x13 && m8[1] == 0 && m8[2] == 0 && m8[3] == 0);
    assert(m8[4] == 0x73 && m8[5] == 0 && m8[6] == 0 && m8[7] == 0);
    assert((0x13u8 as u32) | ((0u8 as u32) << 8) | ((0u8 as u32) << 16) | ((0u8 as u32) << 24)
        == 0x13) by (bit_vector);
    assert((0x73u8 as u32) | ((0u8 as u32) << 8) | ((0u8 as u32) << 16) | ((0u8 as u32) << 24)
        == 0x73) by (bit_vector);
}

/// A fresh processor (as `ChipCPU::new` leaves it) whose memory holds a
/// no-op and then a trap from address 0 alternates between the two forever:
/// after `n` instruction boundaries the program counter is 4 when `n` is odd
/// and 0 when it is even, and every register stays zero.
pub proof fn lemma_nop_trap_program(v: ChipView, n: nat)
    requires
        v.regs == Seq::new(REGISTER_COUNT as nat, |i: int| 0u32),
        v.pc == 0,
        v.mode == ChipMode::LoadInstruction,
        v.memory == load_image(
            Seq::new(CHIP_1M_SIZE as nat, |i: int| 0u8),
            0,
            seq![0x13u8, 0, 0, 0, 0x73, 0, 0, 0],
        ),
        v.csr == Seq::new(CSR_COUNT as nat, |i: int| 0u32),
    ensures
        forall|m: nat| m < n ==> run_defined(#[trigger] run_boundaries(v, m)),
        run_boundaries(v, n).pc == if n % 2 == 1 {
            4u32
        } else {
            0u32
        },
        run_boundaries(v, n).regs == Seq::new(REGISTER_COUNT as nat, |i: int| 0u32),
        run_boundaries(v, n).mode == ChipMode::LoadInstruction,
{
    lemma_nop_trap_image(Seq::new(CHIP_1M_SIZE as nat, |i: int| 0u8));
    lemma_nop_trap_loop(v, n);
}

} // verus!
