pub mod alu;
pub mod alu_modules;
pub mod bus;
pub mod chip;
pub mod csr;
pub mod instruction;
pub mod memory;
pub mod register;

pub use alu::ArithmaticLogicUnit;
pub use alu_modules::{
    AluAdderModule, AluAndModule, AluOrModule, AluShiftLeftModule, AluShiftRightModule,
    AluSltiModule, AluSltiuModule, AluSubtractionModule, AluXorModule,
};
pub use bus::Bus;
pub use instruction::{known_opcode, sign_extend, Instruction};
pub use register::{HardwareZeroRegister, Register, Register32, RegisterSlot};
pub use csr::{CsrAddresses, CsrHandler};
pub use memory::{MemoryAccess, MemoryAccess16, MemoryAccess32, MotherboardMemory, Ram1m, Ram512k,
    Rom1m,
};
pub use chip::{word_runs, ChipCPU, ChipMode, ChipSnapshot};
