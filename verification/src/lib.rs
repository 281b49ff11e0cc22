//! An instruction-set simulator for the KTC32 core: a 32-bit load/store
//! machine whose instructions are 16 or 32 bits wide.
//!
//! The machine is a register file, a flat byte-addressed memory and a
//! fetch-decode-execute loop. Every operation is stated against a mathematical
//! model of the machine state and proved to follow it.

pub mod emulator;
