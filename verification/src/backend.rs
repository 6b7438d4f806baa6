//! The data model of the compiler backend's proof metadata: the evidence
//! a compiler carries alongside lowered code — linearity, memory safety,
//! bounds and alignment facts — together with its optimization levels and
//! a simplified instruction set. The lowering passes themselves live with
//! the backend; this module fixes the vocabulary they exchange with the
//! checker core.

use vstd::prelude::*;

verus! {

/// A memory region identifier for linear-type tracking.
#[derive(Debug, Clone, Copy, PartialEq, Eq, Hash, Structural)]
pub struct MemoryRegion(pub usize);

/// Evidence that a linear resource is created once and consumed at most
/// once.
#[derive(Debug, Clone)]
pub struct LinearityProof {
    pub resource_id: String,
    pub creation_point: usize,
    pub consumption_point: Option<usize>,
    pub no_duplication: bool,
}

/// Evidence of memory safety: bounds, alignment, and freedom from use
/// after free.
#[derive(Debug, Clone)]
pub struct MemorySafetyProof {
    pub bounds_check: BoundsProof,
    pub alignment: AlignmentProof,
    pub no_use_after_free: bool,
}

/// Evidence that an access stays inside its bounds.
#[derive(Debug, Clone)]
pub struct BoundsProof {
    pub lower_bound: i64,
    pub upper_bound: i64,
    pub in_range: bool,
}

/// Evidence that an access is aligned.
#[derive(Debug, Clone)]
pub struct AlignmentProof {
    pub alignment: usize,
    pub offset: usize,
    pub is_aligned: bool,
}

/// Evidence that a resource is used at a single site.
#[derive(Debug, Clone)]
pub struct UsageProof {
    pub single_use: bool,
    pub consumption_site: Option<usize>,
}

/// The effect a lowered function may have.
#[derive(Debug, Clone)]
pub enum SideEffect {
    Memory,
    IO,
    Pure,
}

/// How aggressively the backend optimizes: not at all, with the basic
/// passes, or with every pass.
#[derive(Debug, Clone, Copy)]
pub enum OptLevel {
    Off,
    Basic,
    Aggressive,
}

/// A simplified instruction set the backend lowers to.
#[derive(Debug, Clone)]
pub enum WasmInstruction {
    I32Const(i32),
    I64Const(i64),
    I32Add,
    I64Load,
    LocalGet(String),
    LocalSet(String),
    Call(String),
    If,
    Else,
    End,
}

} // verus!
