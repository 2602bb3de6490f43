//! Decoder core for the Motorola 68000 instruction set: the address-space
//! model, the opcode-pattern table that maps every 16-bit opcode word to a
//! handler descriptor, and a disassembler driven by the same table.

pub mod disassembler;
pub mod handlers;
pub mod memory;
pub mod operand;
pub mod optable;
pub mod ram;
