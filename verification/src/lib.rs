//! A CHIP-8 virtual machine: machine state, instruction decoding, the
//! fetch-decode-execute engine, program loading and loop scheduling.

pub mod display;
pub mod executor;
pub mod keypad;
pub mod laws;
pub mod loader;
pub mod machine;
pub mod opcode;
pub mod pacer;
mod random;
pub mod scheduler;
pub mod semantics;
