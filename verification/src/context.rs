//! Per ray-query intersection context.

use vstd::prelude::*;

verus! {

/// Flags of an intersection context.
#[derive(Clone, Copy, Debug, PartialEq, Eq, Structural)]
pub struct IntersectContextFlags {
    /// The flag bits.
    pub bits: u32,
}

/// No flag set: the rays are treated as incoherent.
pub const INTERSECT_CONTEXT_NONE: u32 = 0;
/// Optimize traversal for incoherent rays (same bits as no flag).
pub const INTERSECT_CONTEXT_INCOHERENT: u32 = 0;
/// Optimize traversal for coherent rays.
pub const INTERSECT_CONTEXT_COHERENT: u32 = 1;

/// Per ray-query intersection context.
///
/// It specifies the intersection flags and the chain of IDs of the current
/// instance (a stack of depth one). The context carries no filter callback:
/// contexts made here have none.
#[derive(Clone, Copy, Debug, PartialEq, Eq, Structural)]
pub struct IntersectContext {
    /// Intersection flags.
    pub flags: IntersectContextFlags,
    /// Identifier of the current instance (`INVALID_ID` outside of instances).
    pub inst_id: u32,
}

impl IntersectContext {
    /// Shortcut to create an intersection context with the coherent flag set.
    pub fn coherent() -> (r: IntersectContext)
        ensures
            r.flags.bits == INTERSECT_CONTEXT_COHERENT,
            r.inst_id == 0xffff_ffffu32,
    {
        IntersectContext::new(IntersectContextFlags { bits: INTERSECT_CONTEXT_COHERENT })
    }

    /// Shortcut to create an intersection context with the incoherent flag set.
    pub fn incoherent() -> (r: IntersectContext)
        ensures
            r.flags.bits == INTERSECT_CONTEXT_INCOHERENT,
            r.inst_id == 0xffff_ffffu32,
    {
        IntersectContext::new(IntersectContextFlags { bits: INTERSECT_CONTEXT_INCOHERENT })
    }

    /// Creates an intersection context with the given flags, no filter and an
    /// invalid instance identifier.
    pub fn new(flags: IntersectContextFlags) -> (r: IntersectContext)
        ensures
            r.flags == flags,
            r.inst_id == 0xffff_ffffu32,
    {
        IntersectContext { flags, inst_id: 0xffff_ffffu32 }
    }
}

} // verus!
