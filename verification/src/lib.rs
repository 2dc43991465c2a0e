//! Interpretive core of an emulator for the main CPU of the first
//! PlayStation: the instruction decoder, the execution engine and the memory
//! bus.

pub mod bios;
pub mod cpu;
pub mod cpu_instructions;
pub mod decoded_instruction;
pub mod emulator_args;
pub mod generic_error;
pub mod invariants;
pub mod memlcontrol;
pub mod memory;
pub mod memory_region;
pub mod text;
pub mod trace;
pub mod word;
