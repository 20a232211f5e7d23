//! Range bounds over byte or element indices, and their resolution into an
//! offset and a size.

use vstd::prelude::*;

verus! {

/// One end of a range.
#[derive(Clone, Copy, Debug, PartialEq, Eq, Structural)]
pub enum Bound {
    /// The end is included in the range.
    Included(usize),
    /// The end is excluded from the range.
    Excluded(usize),
    /// The range has no bound on this side.
    Unbounded,
}

/// A range given by its two ends, as `a..b`, `a..=b`, `a..`, `..b` or `..` would give it.
#[derive(Clone, Copy, Debug, PartialEq, Eq, Structural)]
pub struct RangeSpec {
    /// The start of the range.
    pub start: Bound,
    /// The end of the range.
    pub end: Bound,
}

impl RangeSpec {
    /// The range `..`, covering everything.
    pub fn full() -> (r: RangeSpec)
        ensures
            r == (RangeSpec { start: Bound::Unbounded, end: Bound::Unbounded }),
    {
        RangeSpec { start: Bound::Unbounded, end: Bound::Unbounded }
    }

    /// The range `start..end`.
    pub fn half_open(start: usize, end: usize) -> (r: RangeSpec)
        ensures
            r == (RangeSpec { start: Bound::Included(start), end: Bound::Excluded(end) }),
    {
        RangeSpec { start: Bound::Included(start), end: Bound::Excluded(end) }
    }

    /// The range `start..`.
    pub fn from(start: usize) -> (r: RangeSpec)
        ensures
            r == (RangeSpec { start: Bound::Included(start), end: Bound::Unbounded }),
    {
        RangeSpec { start: Bound::Included(start), end: Bound::Unbounded }
    }
}

/// First index covered by the range.
pub open spec fn range_offset(r: RangeSpec) -> int {
    match r.start {
        Bound::Included(n) => n as int,
        Bound::Excluded(n) => n + 1,
        Bound::Unbounded => 0,
    }
}

/// Number of indices covered by the range, `None` when it has no end.
pub open spec fn range_size(r: RangeSpec) -> Option<int> {
    match r.end {
        Bound::Included(n) => Some(n - range_offset(r) + 1),
        Bound::Excluded(n) => Some(n - range_offset(r)),
        Bound::Unbounded => None,
    }
}

/// The offset and size of the range can be computed in `usize` without
/// overflowing or going below zero.
pub open spec fn range_resolvable(r: RangeSpec) -> bool {
    &&& 0 <= range_offset(r) <= usize::MAX
    &&& match r.end {
        Bound::Included(n) => range_offset(r) <= n && n - range_offset(r) + 1 <= usize::MAX,
        Bound::Excluded(n) => range_offset(r) <= n,
        Bound::Unbounded => true,
    }
}

/// Converts range bounds into an offset and a size; the size is `None` for a
/// range with no end.
pub fn range_bounds_to_offset_and_size(bounds: RangeSpec) -> (r: (usize, Option<usize>))
    requires
        range_resolvable(bounds),
    ensures
        r.0 == range_offset(bounds),
        match range_size(bounds) {
            Some(s) => r.1 == Some(s as usize),
            None => r.1 is None,
        },
{
    let offset = match bounds.start {
        Bound::Included(n) => n,
        Bound::Excluded(n) => n + 1,
        Bound::Unbounded => 0,
    };
    let size = match bounds.end {
        Bound::Included(n) => Some(n - offset + 1),
        Bound::Excluded(n) => Some(n - offset),
        Bound::Unbounded => None,
    };
    (offset, size)
}

/// Offset and size of the part of a region of `total` units that the range
/// selects: a range with no end reaches to the end of the region.
pub open spec fn resolved_range(r: RangeSpec, total: int) -> (int, int) {
    let offset = range_offset(r);
    let size = match range_size(r) {
        Some(s) => s,
        None => total - offset,
    };
    (offset, size)
}

/// The range selects a non-empty part inside a region of `total` units.
pub open spec fn range_selects_within(r: RangeSpec, total: int) -> bool {
    &&& range_resolvable(r)
    &&& resolved_range(r, total).0 < total
    &&& resolved_range(r, total).0 + resolved_range(r, total).1 <= total
    &&& resolved_range(r, total).1 > 0
}

/// Resolves `bounds` against a region of `total` units into an offset and a
/// non-zero size that stay inside the region.
pub fn resolve_range(bounds: RangeSpec, total: usize) -> (r: (usize, usize))
    requires
        range_selects_within(bounds, total as int),
    ensures
        r.0 == resolved_range(bounds, total as int).0,
        r.1 == resolved_range(bounds, total as int).1,
        r.1 > 0,
        r.0 + r.1 <= total,
{
    let (offset, size) = range_bounds_to_offset_and_size(bounds);
    let size = match size {
        Some(s) => s,
        None => total - offset,
    };
    (offset, size)
}

/// Resolves `bounds` against a region of `total` units, or returns `None`
/// when the range does not select a non-empty part inside the region.
pub fn try_resolve_range(bounds: RangeSpec, total: usize) -> (r: Option<(usize, usize)>)
    ensures
        r is Some <==> range_selects_within(bounds, total as int),
        r matches Some(p) ==> p.0 == resolved_range(bounds, total as int).0
            && p.1 == resolved_range(bounds, total as int).1,
{
    let offset: usize = match bounds.start {
        Bound::Included(n) => n,
        Bound::Excluded(n) => {
            if n == usize::MAX {
                return None;
            }
            n + 1
        },
        Bound::Unbounded => 0,
    };
    let size: usize = match bounds.end {
        Bound::Included(n) => {
            if n < offset || n - offset == usize::MAX {
                return None;
            }
            n - offset + 1
        },
        Bound::Excluded(n) => {
            if n < offset {
                return None;
            }
            n - offset
        },
        Bound::Unbounded => {
            if total < offset {
                return None;
            }
            total - offset
        },
    };
    if offset < total && size > 0 && size <= total - offset {
        Some((offset, size))
    } else {
        None
    }
}

} // verus!
