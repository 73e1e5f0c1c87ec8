use vstd::prelude::*;

verus! {

/// A 32-bit bus: a single-slot wire that holds the last value driven onto it.
#[derive(Debug, Clone, Copy)]
pub struct Bus {
    internal: u32,
}

impl View for Bus {
    type V = u32;

    closed spec fn view(&self) -> u32 {
        self.internal
    }
}

impl Bus {
    /// Generate a new bus, holding zero.
    pub fn new() -> (r: Self)
        ensures
            r@ == 0,
    {
        Self { internal: 0 }
    }

    /// Drive a value onto the bus.
    pub fn enable_value(&mut self, value: u32)
        ensures
            final(self)@ == value,
    {
        self.internal = value;
    }

    /// Read the value currently on the bus.
    pub fn read_value(&self) -> (r: u32)
        ensures
            r == self@,
    {
        self.internal
    }

    /// Release the bus, which then holds zero.
    pub fn disable(&mut self)
        ensures
            final(self)@ == 0,
    {
        self.internal = 0;
    }
}

} // verus!
