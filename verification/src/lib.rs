//! A decompiler for Z-machine story files: it decodes the instructions found
//! at an address of the memory image and writes each basic block out as
//! JavaScript source for the host interpreter to compile.

use fnv::{FnvHashMap, FnvHashSet};
use vstd::prelude::*;

pub mod codegen_zvm;
pub mod decompiler;
pub mod text;
pub mod zvm;

verus! {

/// Whether a function can be compiled and run without its locals and stack
/// being part of a saved game.
///
/// A safe function is never saved, so it may be optimised freely. An unsafe
/// one must be compiled so that it can be serialised and restored. One whose
/// safety is not settled yet may have to be compiled again once it is.
#[derive(Clone, Copy, Debug, PartialEq, Eq, Structural)]
pub enum FunctionSafety {
    Safe,
    Unsafe,
    SafetyTBD,
}

/// What is known of one function while it is taken apart.
#[verifier::reject_recursive_types(T)]
pub struct Function<T> {
    pub addr: u32,
    pub calls: FnvHashSet<u32>,
    pub entry_points: FnvHashSet<u32>,
    pub expressions: FnvHashMap<u32, Expression<T>>,
    pub first_fragment_addr: u32,
    pub locals: u32,
    pub safety: FunctionSafety,
}

/// An expression of a function: one instruction, or several that branch
/// together.
pub enum Expression<T> {
    Instruction(T),
    Branch(Branch<T>),
}

/// Instructions whose branches were joined into one.
pub struct Branch<T> {
    pub addr: u32,
    pub conditions: Vec<T>,
}

} // verus!
