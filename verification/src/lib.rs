//! Cycle-accurate emulation core for the MOS 6502 family, specialised for the
//! RP2A03 variant (the NES CPU, a 6502 without decimal arithmetic).
//!
//! The crate is organised leaves first: the register file (`context`), the pin
//! model (`pins`), the bus port (`bus`), the per-opcode data transformations
//! (`instructions`), the cycle engine (`operations`), and the facade that ties
//! them together (`rp2a03`).

pub mod bus;
pub mod context;
pub mod instructions;
pub mod operations;
pub mod pins;
pub mod rp2a03;
