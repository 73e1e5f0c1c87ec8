use vstd::prelude::*;

use crate::bus::Bus;

verus! {

/// `a + b`, wrapping at 2^32.
pub open spec fn wrapped_sum(a: u32, b: u32) -> u32 {
    ((a as int + b as int) % 0x1_0000_0000) as u32
}

/// `a - b`, wrapping at 2^32.
pub open spec fn wrapped_difference(a: u32, b: u32) -> u32 {
    ((a as int - b as int) % 0x1_0000_0000) as u32
}

/// The shift amount a shifter takes from its second operand: its low five bits.
pub open spec fn shift_amount(b: u32) -> u32 {
    b & 0x1F
}

/// One when `a < b` as two's-complement numbers, zero otherwise.
pub open spec fn signed_less_than(a: u32, b: u32) -> u32 {
    if (a as i32) < (b as i32) {
        1
    } else {
        0
    }
}

/// One when `a < b` as unsigned numbers, zero otherwise.
pub open spec fn unsigned_less_than(a: u32, b: u32) -> u32 {
    if a < b {
        1
    } else {
        0
    }
}

/// `a` shifted right by the shift amount of `b`, copying the sign bit in when
/// `arithmetic` holds and zeros otherwise.
pub open spec fn shifted_right(a: u32, b: u32, arithmetic: bool) -> u32 {
    if arithmetic {
        ((a as i32) >> shift_amount(b)) as u32
    } else {
        a >> shift_amount(b)
    }
}

proof fn lemma_shift_amount_small(b: u32)
    ensures
        shift_amount(b) < 32,
{
    assert(b & 0x1F < 32) by (bit_vector);
}

/// Adder: drives the wrapping sum of its sources.
pub struct AluAdderModule {}

impl AluAdderModule {
    /// Generate a new AluAdderModule.
    pub fn new() -> (r: Self) {
        Self {  }
    }

    /// Drive `src0 + src1` onto `output`.
    pub fn tick(&self, src0: &Bus, src1: &Bus, output: &mut Bus)
        ensures
            final(output)@ == wrapped_sum(src0@, src1@),
    {
        let s0 = src0.read_value();
        let s1 = src1.read_value();
        output.enable_value(s0.wrapping_add(s1));
    }
}

/// Subtractor: drives the wrapping difference of its sources.
pub struct AluSubtractionModule {}

impl AluSubtractionModule {
    /// Generate a new AluSubtractionModule.
    pub fn new() -> (r: Self) {
        Self {  }
    }

    /// Drive `src0 - src1` onto `output`.
    pub fn tick(&self, src0: &Bus, src1: &Bus, output: &mut Bus)
        ensures
            final(output)@ == wrapped_difference(src0@, src1@),
    {
        let s0 = src0.read_value();
        let s1 = src1.read_value();
        output.enable_value(s0.wrapping_sub(s1));
    }
}

/// Bitwise and.
pub struct AluAndModule {}

impl AluAndModule {
    /// Generate a new AluAndModule.
    pub fn new() -> (r: Self) {
        Self {  }
    }

    /// Drive `src0 & src1` onto `output`.
    pub fn tick(&self, src0: &Bus, src1: &Bus, output: &mut Bus)
        ensures
            final(output)@ == src0@ & src1@,
    {
        let s0 = src0.read_value();
        let s1 = src1.read_value();
        output.enable_value(s0 & s1);
    }
}

/// Bitwise or.
pub struct AluOrModule {}

impl AluOrModule {
    /// Generate a new AluOrModule.
    pub fn new() -> (r: Self) {
        Self {  }
    }

    /// Drive `src0 | src1` onto `output`.
    pub fn tick(&self, src0: &Bus, src1: &Bus, output: &mut Bus)
        ensures
            final(output)@ == src0@ | src1@,
    {
        let s0 = src0.read_value();
        let s1 = src1.read_value();
        output.enable_value(s0 | s1);
    }
}

/// Bitwise exclusive or.
pub struct AluXorModule {}

impl AluXorModule {
    /// Generate a new AluXorModule.
    pub fn new() -> (r: Self) {
        Self {  }
    }

    /// Drive `src0 ^ src1` onto `output`.
    pub fn tick(&self, src0: &Bus, src1: &Bus, output: &mut Bus)
        ensures
            final(output)@ == src0@ ^ src1@,
    {
        let s0 = src0.read_value();
        let s1 = src1.read_value();
        output.enable_value(s0 ^ s1);
    }
}

/// Signed less-than comparator.
pub struct AluSltiModule {}

impl AluSltiModule {
    /// Generate a new AluSltiModule.
    pub fn new() -> (r: Self) {
        Self {  }
    }

    /// Drive one onto `output` when `src0 < src1` as signed numbers, zero otherwise.
    pub fn tick(&self, src0: &Bus, src1: &Bus, output: &mut Bus)
        ensures
            final(output)@ == signed_less_than(src0@, src1@),
    {
        let s0 = src0.read_value();
        let s1 = src1.read_value();
        output.enable_value(
            if (s0 as i32) < (s1 as i32) {
                1
            } else {
                0
            },
        );
    }
}

/// Unsigned less-than comparator.
pub struct AluSltiuModule {}

impl AluSltiuModule {
    /// Generate a new AluSltiuModule.
    pub fn new() -> (r: Self) {
        Self {  }
    }

    /// Drive one onto `output` when `src0 < src1` as unsigned numbers, zero otherwise.
    pub fn tick(&self, src0: &Bus, src1: &Bus, output: &mut Bus)
        ensures
            final(output)@ == unsigned_less_than(src0@, src1@),
    {
        let s0 = src0.read_value();
        let s1 = src1.read_value();
        output.enable_value(
            if s0 < s1 {
                1
            } else {
                0
            },
        );
    }
}

/// Left shifter.
pub struct AluShiftLeftModule {}

impl AluShiftLeftModule {
    /// Generate a new AluShiftLeftModule.
    pub fn new() -> (r: Self) {
        Self {  }
    }

    /// Drive `src0` shifted left by the low five bits of `src1` onto `output`.
    pub fn tick(&self, src0: &Bus, src1: &Bus, output: &mut Bus)
        ensures
            final(output)@ == src0@ << shift_amount(src1@),
    {
        let s0 = src0.read_value();
        let s1 = src1.read_value();
        proof {
            lemma_shift_amount_small(s1);
        }
        output.enable_value(s0 << (s1 & 0b11111));
    }
}

/// Right shifter, logical or arithmetic.
pub struct AluShiftRightModule {}

impl AluShiftRightModule {
    /// Generate a new AluShiftRightModule.
    pub fn new() -> (r: Self) {
        Self {  }
    }

    /// Drive `src0` shifted right by the low five bits of `src1` onto `output`,
    /// keeping the sign when `flag` is set.
    pub fn tick(&self, src0: &Bus, src1: &Bus, output: &mut Bus, flag: bool)
        ensures
            final(output)@ == shifted_right(src0@, src1@, flag),
    {
        let s0 = src0.read_value();
        let s1 = src1.read_value();
        proof {
            lemma_shift_amount_small(s1);
        }
        if flag {
            output.enable_value(((s0 as i32) >> (s1 & 0b11111)) as u32);
        } else {
            output.enable_value(s0 >> (s1 & 0b11111));
        }
    }
}

} // verus!
