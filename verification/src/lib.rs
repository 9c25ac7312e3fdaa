//! Instruction decode and dispatch core of a CHIP-8 virtual machine.
//!
//! A fetched 16-bit word is split into fields (`bitmasks`), recognised by an
//! ordered table of mask/pattern pairs (`opcodesv2`), turned into a typed
//! operation by the handler of its family (`ophandlers`) and handed out by
//! `decoder::decode`. `opcodes` holds the same decoding written as a switch on
//! the opcode class, proved to agree with the table. `machine` is the state
//! container and the fetch loop.

pub mod bitmasks;
pub mod decoder;
pub mod hex;
pub mod machine;
pub mod opcodes;
pub mod opcodesv2;
pub mod ophandlers;
