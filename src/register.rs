use vstd::prelude::*;

use crate::bus::Bus;

verus! {

/// Behaviour of a 32-bit register: it drives its value onto a bus, latches a
/// bus's value, and reports what it holds.
pub trait Register32 {
    /// What the register reads as.
    spec fn stored(&self) -> u32;

    /// Whether the register is wired to zero and ignores what it latches.
    spec fn hardwired_zero(&self) -> bool;

    /// Get the value stored in the register (for inspection; the processor
    /// moves register values over buses).
    fn get_value(&self) -> (r: u32)
        ensures
            r == self.stored(),
    ;

    /// Drive the register's value onto a bus.
    fn enable_on_bus(&self, bus: &mut Bus)
        ensures
            final(bus)@ == self.stored(),
    ;

    /// Release a bus the register drove, leaving it at zero.
    fn disable_on_bus(&self, bus: &mut Bus)
        ensures
            final(bus)@ == 0,
    ;

    /// Latch the value on a bus into the register.
    fn set_from_bus(&mut self, bus: &Bus)
        ensures
            final(self).hardwired_zero() == old(self).hardwired_zero(),
            final(self).stored() == if old(self).hardwired_zero() {
                0
            } else {
                bus@
            },
    ;
}

/// The architectural zero register: reads as zero and discards writes.
#[derive(Debug, Clone, Copy)]
pub struct HardwareZeroRegister {}

impl HardwareZeroRegister {
    /// Generate a new hardware zero register.
    pub fn new() -> (r: Self) {
        Self {  }
    }
}

impl Register32 for HardwareZeroRegister {
    open spec fn stored(&self) -> u32 {
        0
    }

    open spec fn hardwired_zero(&self) -> bool {
        true
    }

    fn get_value(&self) -> (r: u32) {
        0
    }

    fn enable_on_bus(&self, bus: &mut Bus) {
        bus.enable_value(0);
    }

    fn disable_on_bus(&self, bus: &mut Bus) {
        bus.disable();
    }

    fn set_from_bus(&mut self, bus: &Bus) {
        // the bus is still read, as the hardware would, and the value dropped
        let _ = bus.read_value();
    }
}

/// An ordinary 32-bit register.
#[derive(Debug, Clone, Copy)]
pub struct Register {
    pub value: u32,
}

impl Register {
    /// Generate a new register holding zero.
    pub fn new() -> (r: Self)
        ensures
            r.value == 0,
    {
        Self { value: 0 }
    }
}

impl Register32 for Register {
    open spec fn stored(&self) -> u32 {
        self.value
    }

    open spec fn hardwired_zero(&self) -> bool {
        false
    }

    fn get_value(&self) -> (r: u32) {
        self.value
    }

    fn enable_on_bus(&self, bus: &mut Bus) {
        bus.enable_value(self.value);
    }

    fn disable_on_bus(&self, bus: &mut Bus) {
        bus.disable();
    }

    fn set_from_bus(&mut self, bus: &Bus) {
        self.value = bus.read_value();
    }
}

/// One slot of a register file: either the hardware zero register or an
/// ordinary register.
#[derive(Debug, Clone, Copy)]
pub enum RegisterSlot {
    Zero(HardwareZeroRegister),
    General(Register),
}

impl RegisterSlot {
    /// What the slot reads as.
    pub open spec fn reads_as(&self) -> u32 {
        match self {
            RegisterSlot::Zero(_) => 0,
            RegisterSlot::General(r) => r.value,
        }
    }
}

impl Register32 for RegisterSlot {
    open spec fn stored(&self) -> u32 {
        self.reads_as()
    }

    open spec fn hardwired_zero(&self) -> bool {
        self is Zero
    }

    fn get_value(&self) -> (r: u32) {
        match self {
            RegisterSlot::Zero(z) => z.get_value(),
            RegisterSlot::General(r) => r.get_value(),
        }
    }

    fn enable_on_bus(&self, bus: &mut Bus) {
        match self {
            RegisterSlot::Zero(z) => z.enable_on_bus(bus),
            RegisterSlot::General(r) => r.enable_on_bus(bus),
        }
    }

    fn disable_on_bus(&self, bus: &mut Bus) {
        match self {
            RegisterSlot::Zero(z) => z.disable_on_bus(bus),
            RegisterSlot::General(r) => r.disable_on_bus(bus),
        }
    }

    fn set_from_bus(&mut self, bus: &Bus) {
        match self {
            RegisterSlot::Zero(z) => z.set_from_bus(bus),
            RegisterSlot::General(r) => r.set_from_bus(bus),
        }
    }
}

} // verus!
