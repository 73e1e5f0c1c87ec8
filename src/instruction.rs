use vstd::prelude::*;

verus! {

/// Register-register arithmetic.
pub const OPCODE_OP: u8 = 0b0110011;

/// Register-immediate arithmetic.
pub const OPCODE_OP_IMM: u8 = 0b0010011;

/// Jump and link register.
pub const OPCODE_JALR: u8 = 0b1100111;

/// Loads.
pub const OPCODE_LOAD: u8 = 0b0000011;

/// System instructions (traps).
pub const OPCODE_SYSTEM: u8 = 0b1110011;

/// Stores.
pub const OPCODE_STORE: u8 = 0b0100011;

/// Conditional branches.
pub const OPCODE_BRANCH: u8 = 0b1100011;

/// Load upper immediate.
pub const OPCODE_LUI: u8 = 0b0110111;

/// Add upper immediate to the program counter.
pub const OPCODE_AUIPC: u8 = 0b0010111;

/// Jump and link.
pub const OPCODE_JAL: u8 = 0b1101111;

/// `val` with the bit at position `bit` copied into every higher bit: all bits
/// from `bit` upward are set when that bit is one, and `val` is kept otherwise.
pub open spec fn sign_extended(val: u32, bit: u32) -> u32 {
    if (val >> bit) & 1 == 1 {
        val | (0xFFFF_FFFFu32 << bit)
    } else {
        val
    }
}

/// The `size` bits of `val` that start at position `low`, moved down to bit zero.
pub open spec fn bit_field(val: u32, low: u32, size: u32) -> u32 {
    (val >> low) & ((1u32 << size) - 1) as u32
}

/// Whether an opcode belongs to one of the instruction formats the decoder knows.
pub open spec fn is_known_opcode(opcode: u8) -> bool {
    opcode == OPCODE_OP || opcode == OPCODE_OP_IMM || opcode == OPCODE_JALR || opcode
        == OPCODE_LOAD || opcode == OPCODE_SYSTEM || opcode == OPCODE_STORE || opcode
        == OPCODE_BRANCH || opcode == OPCODE_LUI || opcode == OPCODE_AUIPC || opcode
        == OPCODE_JAL
}

/// The opcode field of an instruction word (bits 0 to 6).
pub open spec fn opcode_of(word: u32) -> u8 {
    (word & 0x7F) as u8
}

/// The immediate of an instruction word, laid out by the format its opcode selects.
pub open spec fn immediate_of(word: u32) -> u32 {
    let opcode = opcode_of(word);
    if opcode == OPCODE_OP {
        0
    } else if opcode == OPCODE_OP_IMM || opcode == OPCODE_JALR || opcode == OPCODE_LOAD || opcode
        == OPCODE_SYSTEM {
        // bits 20..31 hold imm[11:0]
        sign_extended(word >> 20, 11)
    } else if opcode == OPCODE_STORE {
        // bits 7..11 hold imm[4:0], bits 25..31 hold imm[11:5]
        sign_extended(((word >> 7) & 0x1F) | ((word >> 25) << 5), 11)
    } else if opcode == OPCODE_BRANCH {
        // bit 7: imm[11], bits 8..11: imm[4:1], bits 25..30: imm[10:5], bit 31: imm[12]
        sign_extended(
            (((word >> 7) & 1) << 11) | (((word >> 8) & 0xF) << 1) | (((word >> 25) & 0x3F) << 5)
                | ((word >> 31) << 12),
            12,
        )
    } else if opcode == OPCODE_LUI || opcode == OPCODE_AUIPC {
        word & 0xFFFF_F000
    } else {
        // bits 12..19: imm[19:12], bit 20: imm[11], bits 21..30: imm[10:1], bit 31: imm[20]
        sign_extended(
            (word & 0x000F_F000) | (((word >> 20) & 1) << 11) | (((word >> 21) & 0x3FF) << 1) | ((
            word >> 31) << 20),
            20,
        )
    }
}

/// The decoded fields of an instruction word.
pub open spec fn decode(word: u32) -> Instruction {
    Instruction {
        opcode: opcode_of(word),
        rd: ((word >> 7) & 0x1F) as u8,
        rs1: ((word >> 15) & 0x1F) as u8,
        rs2: ((word >> 20) & 0x1F) as u8,
        funct7: (word >> 25) as u8,
        funct3: ((word >> 12) & 0x7) as u8,
        immediate: immediate_of(word),
    }
}

/// Whether `opcode` selects one of the instruction formats the decoder knows.
pub fn known_opcode(opcode: u8) -> (r: bool)
    ensures
        r == is_known_opcode(opcode),
{
    opcode == OPCODE_OP || opcode == OPCODE_OP_IMM || opcode == OPCODE_JALR || opcode == OPCODE_LOAD
        || opcode == OPCODE_SYSTEM || opcode == OPCODE_STORE || opcode == OPCODE_BRANCH || opcode
        == OPCODE_LUI || opcode == OPCODE_AUIPC || opcode == OPCODE_JAL
}

/// Extract the `size` bits of `val` that start at bit `bit_low`.
fn extract_bit_range(val: u32, bit_low: u32, size: u32) -> (r: u32)
    requires
        bit_low < 32,
        size < 32,
    ensures
        r == bit_field(val, bit_low, size),
{
    assert(1u32 << size >= 1) by (bit_vector)
        requires
            size < 32,
    ;
    (val >> bit_low) & ((1u32 << size) - 1)
}

/// Sign extend `val` from the bit at position `bit`.
pub fn sign_extend(val: u32, bit: usize) -> (r: u32)
    requires
        bit < 31,
    ensures
        r == sign_extended(val, bit as u32),
{
    let b = bit as u32;
    assert(2u32 << b >= 2 && ((val >> b) & 1 == 1 ==> val | !(((2u32 << b) - 1) as u32) == val | (
    0xFFFF_FFFFu32 << b))) by (bit_vector)
        requires
            b < 31,
    ;
    let mask: u32 = !((2u32 << b) - 1);
    if ((val >> b) & 1) == 1 {
        val | mask
    } else {
        val
    }
}

/// Sign extension is idempotent: extending an already extended value from the
/// same bit gives it back unchanged.
pub proof fn lemma_sign_extend_idempotent(val: u32, bit: u32)
    requires
        bit < 31,
    ensures
        sign_extended(sign_extended(val, bit), bit) == sign_extended(val, bit),
{
    assert(((val >> bit) & 1 == 1) ==> (((val | (0xFFFF_FFFFu32 << bit)) >> bit) & 1 == 1 && (val
        | (0xFFFF_FFFFu32 << bit)) | (0xFFFF_FFFFu32 << bit) == val | (0xFFFF_FFFFu32 << bit)))
        by (bit_vector)
        requires
            bit < 31,
    ;
}

/// A decoded instruction.
#[derive(Debug, Clone, Copy)]
pub struct Instruction {
    pub opcode: u8,
    pub rd: u8,
    pub rs1: u8,
    pub rs2: u8,
    pub funct7: u8,
    pub funct3: u8,
    pub immediate: u32,
}

impl Instruction {
    /// Decode an instruction word read from memory.
    pub fn new(inst: u32) -> (r: Self)
        requires
            is_known_opcode(opcode_of(inst)),
        ensures
            r == decode(inst),
            r.rd < 32,
            r.rs1 < 32,
            r.rs2 < 32,
            r.funct3 < 8,
    {
        let opcode = extract_bit_range(inst, 0, 7) as u8;
        let rd = extract_bit_range(inst, 7, 5) as u8;
        let funct3 = extract_bit_range(inst, 12, 3) as u8;
        let rs1 = extract_bit_range(inst, 15, 5) as u8;
        let rs2 = extract_bit_range(inst, 20, 5) as u8;
        let funct7 = extract_bit_range(inst, 25, 7) as u8;
        assert(bit_field(inst, 0, 7) == inst & 0x7F && bit_field(inst, 7, 5) == (inst >> 7) & 0x1F
            && bit_field(inst, 12, 3) == (inst >> 12) & 0x7 && bit_field(inst, 15, 5) == (inst
            >> 15) & 0x1F && bit_field(inst, 20, 5) == (inst >> 20) & 0x1F && bit_field(inst, 25, 7)
            == inst >> 25 && inst & 0x7F < 128 && (inst >> 7) & 0x1F < 32 && (inst >> 12) & 0x7 < 8
            && (inst >> 15) & 0x1F < 32 && (inst >> 20) & 0x1F < 32 && inst >> 25 < 128)
            by (bit_vector);
        let immediate = if opcode == OPCODE_OP {
            0
        } else if opcode == OPCODE_OP_IMM || opcode == OPCODE_JALR || opcode == OPCODE_LOAD
            || opcode == OPCODE_SYSTEM {
            assert(((inst >> 20) & 0x1F) | ((inst >> 25) << 5) == inst >> 20) by (bit_vector);
            sign_extend(rs2 as u32 | ((funct7 as u32) << 5), 11)
        } else if opcode == OPCODE_STORE {
            sign_extend(rd as u32 | ((funct7 as u32) << 5), 11)
        } else if opcode == OPCODE_BRANCH {
            let raw = (extract_bit_range(inst, 7, 1) << 11) | (extract_bit_range(inst, 8, 4) << 1)
                | (extract_bit_range(inst, 25, 6) << 5) | (extract_bit_range(inst, 31, 1) << 12);
            assert(raw == (((inst >> 7) & 1) << 11) | (((inst >> 8) & 0xF) << 1) | (((inst >> 25)
                & 0x3F) << 5) | ((inst >> 31) << 12)) by (bit_vector)
                requires
                    raw == (bit_field(inst, 7, 1) << 11) | (bit_field(inst, 8, 4) << 1) | (
                    bit_field(inst, 25, 6) << 5) | (bit_field(inst, 31, 1) << 12),
            ;
            sign_extend(raw, 12)
        } else if opcode == OPCODE_LUI || opcode == OPCODE_AUIPC {
            let upper = extract_bit_range(inst, 12, 20) << 12;
            assert(bit_field(inst, 12, 20) << 12 == inst & 0xFFFF_F000) by (bit_vector);
            upper
        } else {
            let raw = (extract_bit_range(inst, 12, 8) << 12) | (extract_bit_range(inst, 20, 1)
                << 11) | (extract_bit_range(inst, 21, 10) << 1) | (extract_bit_range(inst, 31, 1)
                << 20);
            assert(raw == (inst & 0x000F_F000) | (((inst >> 20) & 1) << 11) | (((inst >> 21)
                & 0x3FF) << 1) | ((inst >> 31) << 20)) by (bit_vector)
                requires
                    raw == (bit_field(inst, 12, 8) << 12) | (bit_field(inst, 20, 1) << 11) | (
                    bit_field(inst, 21, 10) << 1) | (bit_field(inst, 31, 1) << 20),
            ;
            sign_extend(raw, 20)
        };
        Self { opcode, rd, rs1, rs2, funct7, funct3, immediate }
    }
}

} // verus!
