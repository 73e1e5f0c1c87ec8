use vstd::prelude::*;

use crate::alu_modules::{
    shift_amount, shifted_right, signed_less_than, unsigned_less_than, wrapped_difference,
    wrapped_sum, AluAdderModule, AluAndModule, AluOrModule, AluShiftLeftModule,
    AluShiftRightModule, AluSltiModule, AluSltiuModule, AluSubtractionModule, AluXorModule,
};
use crate::bus::Bus;

verus! {

/// Mode of the adder (or subtractor, with the flag set).
pub const ALU_MODE_ADD: usize = 0b000;

/// Mode of the signed less-than comparator.
pub const ALU_MODE_SLT: usize = 0b010;

/// Mode of the unsigned less-than comparator.
pub const ALU_MODE_SLTU: usize = 0b011;

/// What the ALU drives for a mode, a subtract / arithmetic-shift flag and two operands.
pub open spec fn alu_result(mode: usize, sub_flag: bool, a: u32, b: u32) -> u32 {
    if mode == 0b000 {
        if sub_flag {
            wrapped_difference(a, b)
        } else {
            wrapped_sum(a, b)
        }
    } else if mode == 0b001 {
        a << shift_amount(b)
    } else if mode == 0b010 {
        signed_less_than(a, b)
    } else if mode == 0b011 {
        unsigned_less_than(a, b)
    } else if mode == 0b100 {
        a ^ b
    } else if mode == 0b101 {
        shifted_right(a, b, sub_flag)
    } else if mode == 0b110 {
        a | b
    } else {
        a & b
    }
}

/// Arithmetic logic unit: a combinational circuit that applies the operation
/// its mode selects to its two source buses and drives the result.
pub struct ArithmaticLogicUnit {
    pub add: AluAdderModule,
    pub sub: AluSubtractionModule,
    pub and: AluAndModule,
    pub or: AluOrModule,
    pub xor: AluXorModule,
    pub slti: AluSltiModule,
    pub sltiu: AluSltiuModule,
    pub shiftleft: AluShiftLeftModule,
    pub shiftright: AluShiftRightModule,
    pub mode: usize,
    pub sub_flag: bool,
}

impl ArithmaticLogicUnit {
    /// Generate a new ArithmaticLogicUnit, set to add.
    pub fn new() -> (r: Self)
        ensures
            r.mode == ALU_MODE_ADD,
            !r.sub_flag,
    {
        Self {
            add: AluAdderModule::new(),
            sub: AluSubtractionModule::new(),
            and: AluAndModule::new(),
            or: AluOrModule::new(),
            xor: AluXorModule::new(),
            slti: AluSltiModule::new(),
            sltiu: AluSltiuModule::new(),
            shiftleft: AluShiftLeftModule::new(),
            shiftright: AluShiftRightModule::new(),
            mode: ALU_MODE_ADD,
            sub_flag: false,
        }
    }

    /// Evaluate the selected operation on `src0` and `src1` and drive it onto `output`.
    pub fn tick(&self, src0: &Bus, src1: &Bus, output: &mut Bus)
        requires
            self.mode < 8,
        ensures
            final(output)@ == alu_result(self.mode, self.sub_flag, src0@, src1@),
    {
        match self.mode {
            0b000 => if !self.sub_flag {
                self.add.tick(src0, src1, output)
            } else {
                self.sub.tick(src0, src1, output)
            },
            0b001 => self.shiftleft.tick(src0, src1, output),
            0b010 => self.slti.tick(src0, src1, output),
            0b011 => self.sltiu.tick(src0, src1, output),
            0b100 => self.xor.tick(src0, src1, output),
            0b101 => self.shiftright.tick(src0, src1, output, self.sub_flag),
            0b110 => self.or.tick(src0, src1, output),
            _ => self.and.tick(src0, src1, output),
        }
    }
}

/// In mode `000` the ALU adds modulo 2^32, or subtracts modulo 2^32 when the
/// flag is set.
pub proof fn lemma_alu_add_sub(a: u32, b: u32)
    ensures
        alu_result(ALU_MODE_ADD, false, a, b) as int == (a as int + b as int) % 0x1_0000_0000,
        alu_result(ALU_MODE_ADD, true, a, b) as int == (a as int - b as int) % 0x1_0000_0000,
{
}

/// The shifts use the low five bits of the second operand: mode `001` shifts
/// left, mode `101` shifts right logically, or arithmetically when the flag is set.
pub proof fn lemma_alu_shifts(a: u32, s: u32)
    ensures
        alu_result(0b001, false, a, s) == a << (s & 31),
        alu_result(0b001, true, a, s) == a << (s & 31),
        alu_result(0b101, false, a, s) == a >> (s & 31),
        alu_result(0b101, true, a, s) == ((a as i32) >> (s & 31)) as u32,
{
}

} // verus!
