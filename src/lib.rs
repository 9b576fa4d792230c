//! Cycle-accurate core of an Atari 2600 emulator: the 6507 CPU interpreter,
//! the TIA graphics and audio generators and the memory bus that joins them.

pub mod clocks;
pub mod pc_state;
pub mod instruction_set;
pub mod tiasound;
pub mod objects;
pub mod display;
pub mod palette;
pub mod stella;
pub mod riot;
pub mod inputs;
pub mod cartridge;
pub mod memory;
pub mod addressing;
pub mod instructions;
pub mod machine;
