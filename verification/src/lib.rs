//! A decoder, a disassembler and an interpreter for the machine code of the Intel 8080.
//!
//! * `table` holds the opcode map: the one place that says which operation an opcode
//!   selects. The decoder, the listing and the interpreter all read it.
//! * `instruction` decodes the instruction at an address of a byte image.
//! * `listing` renders decoded instructions as lines of text.
//! * `memory` is the 64 KiB address space.
//! * `cpu` holds the registers, `alu` the 8-bit arithmetic with its flags.
//! * `execute` carries out one instruction on the registers and the memory.

pub mod alu;
pub mod cpu;
pub mod execute;
pub mod instruction;
pub mod listing;
pub mod memory;
pub mod table;
