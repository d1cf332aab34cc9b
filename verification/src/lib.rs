//! Instruction-level model of a classic 8-bit microprocessor core.
//!
//! The crate has two components: a byte-addressable memory with
//! little-endian word access ([`memory`]), and the processor core itself
//! ([`cpu`]) with its registers, status flags and the fetch-decode-execute
//! loop, driven through a decode table ([`decode`]). Every operation is
//! cycle-metered, so a caller can synchronize peripheral emulation with the
//! number of cycles the core reports.

pub mod cpu;
pub mod decode;
pub mod memory;
