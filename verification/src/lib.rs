//! Central-processor core of a Game Boy emulator.
//!
//! The crate holds the register file and the flags register of the
//! processor, the bit-exact arithmetic and rotation primitives that every
//! instruction takes its flags from, the instruction set, and the cycle
//! that fetches, decodes and executes one instruction against a bus.
//!
//! Everything is verified: each function states what it returns or changes
//! over a model in plain integer arithmetic, and the laws that tie the
//! functions together are proved beside them.

pub mod circuitry;
pub mod cpu;
pub mod game_boy;
pub mod helpers;
