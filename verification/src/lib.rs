//! Runtime support for dynamically assembled code: relocation encodings for
//! aarch64 and RISC-V, immediate encoders, register enumerations, and the
//! aarch64 assembler's register ids, modifiers and condition codes.

use vstd::prelude::*;

pub mod bytes;
pub mod message;
pub mod relocations;
pub mod aarch64;
pub mod ast;
pub mod logical;
pub mod logical64;
pub mod riscv;

verus! {

/// A register of an architecture, identified by its encoding number.
pub trait Register: core::fmt::Debug + Clone + Copy + PartialEq + Eq + core::hash::Hash {
    /// The number that encodes this register in instructions.
    spec fn number(&self) -> u8;

    /// Returns the number that encodes this register in instructions.
    fn code(&self) -> (r: u8)
        ensures
            r == self.number(),
    ;
}

} // verus!
