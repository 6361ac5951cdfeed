//! An instruction-level 6502 CPU emulator core.
//!
//! The crate models the register and flag state, the sixteen addressing-mode
//! resolvers, the 56 instruction semantics, a 256-entry opcode dispatch table
//! built from a declarative specification, and a single-step execution driver
//! with cycle accounting (page-crossing and branch-taken penalties).

pub mod driver;
pub mod laws;
pub mod modes;
pub mod ops;
pub mod state;
pub mod table;

pub use state::{Cpu6502, CpuView, OperandKind};
pub use table::{AddrMode, Entry, Mnemonic, OpcodeDef, OpcodeTable};
