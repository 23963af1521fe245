//! A MOS 6502 core for a classic game console: the cartridge image parser,
//! the memory bus with its address decoder, the opcode table and the
//! instruction engine, each with its behaviour stated as a contract.

pub mod cpu;
pub mod dump;
pub mod mem;
pub mod opcode;
pub mod rom;
