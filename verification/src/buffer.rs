//! Buffers managed by Embree, slices into buffers or user memory, and typed
//! views of mapped buffer ranges.
//!
//! The memory itself belongs to Embree or to the caller; this module keeps
//! the sizes and offsets that describe it.

use vstd::prelude::*;
use crate::align::{align_up_16, round_up_16, lemma_round_up_16};
use crate::range::{resolve_range, resolved_range, range_selects_within, RangeSpec};

verus! {

/// Size in bytes of a buffer created for a request of `size` bytes: the
/// request padded to a multiple of 16.
pub open spec fn padded_buffer_size(size: int) -> int {
    if size % 16 == 0 {
        size
    } else {
        round_up_16(size)
    }
}

/// Handle to a buffer managed by Embree, described by its size in bytes.
#[derive(Clone, Copy, Debug, PartialEq, Eq, Structural)]
pub struct Buffer {
    size: usize,
}

impl Buffer {
    /// Size of the buffer in bytes.
    pub closed spec fn byte_size(&self) -> nat {
        self.size as nat
    }

    /// Describes a new buffer for a request of `size` bytes, padded to a
    /// multiple of 16 bytes.
    pub fn new(size: usize) -> (r: Buffer)
        requires
            size > 0,
            size % 16 == 0 || size + 15 <= usize::MAX,
        ensures
            r.byte_size() == padded_buffer_size(size as int),
            r.byte_size() % 16 == 0,
            size <= r.byte_size() < size + 16,
    {
        proof {
            lemma_round_up_16(size as int);
        }
        let size = if size % 16 == 0 {
            size
        } else {
            align_up_16(size)
        };
        Buffer { size }
    }

    /// Size of the buffer in bytes.
    pub fn size(&self) -> (r: usize)
        ensures
            r == self.byte_size(),
    {
        self.size
    }

    /// Returns a slice of the buffer covering the byte range `bounds`; a range
    /// with no end reaches to the end of the buffer.
    pub fn slice(&self, bounds: RangeSpec) -> (r: BufferSlice<'_>)
        requires
            range_selects_within(bounds, self.byte_size() as int),
        ensures
            r == (BufferSlice::Buffer {
                buffer: self,
                offset: resolved_range(bounds, self.byte_size() as int).0 as usize,
                size: resolved_range(bounds, self.byte_size() as int).1 as usize,
            }),
    {
        let (offset, size) = resolve_range(bounds, self.size);
        BufferSlice::Buffer { buffer: self, offset, size }
    }

    /// Read-only view of elements of type `T` over the byte range `bounds` of
    /// the buffer; a range with no end reaches to the end of the buffer.
    pub fn mapped_range<T>(&self, bounds: RangeSpec) -> (r: BufferView<'_, T>)
        requires
            range_selects_within(bounds, self.byte_size() as int),
            vstd::layout::size_of::<T>() > 0,
            resolved_range(bounds, self.byte_size() as int).0 % (vstd::layout::size_of::<T>() as int) == 0,
            resolved_range(bounds, self.byte_size() as int).1 % (vstd::layout::size_of::<T>() as int) == 0,
        ensures
            r.source() == *self,
            r.byte_offset() == resolved_range(bounds, self.byte_size() as int).0,
            r.len() == resolved_range(bounds, self.byte_size() as int).1 / (vstd::layout::size_of::<T>() as int),
    {
        let (offset, size) = resolve_range(bounds, self.size);
        BufferView::new(self, offset, size)
    }

    /// Writable view of elements of type `T` over the byte range `bounds` of
    /// the buffer; a range with no end reaches to the end of the buffer.
    pub fn mapped_range_mut<T>(&mut self, bounds: RangeSpec) -> (r: BufferViewMut<'_, T>)
        requires
            range_selects_within(bounds, old(self).byte_size() as int),
            vstd::layout::size_of::<T>() > 0,
            resolved_range(bounds, old(self).byte_size() as int).0 % (vstd::layout::size_of::<T>() as int) == 0,
            resolved_range(bounds, old(self).byte_size() as int).1 % (vstd::layout::size_of::<T>() as int) == 0,
        ensures
            r.source() == *old(self),
            r.byte_offset() == resolved_range(bounds, old(self).byte_size() as int).0,
            r.len() == resolved_range(bounds, old(self).byte_size() as int).1 / (vstd::layout::size_of::<T>() as int),
    {
        let (offset, size) = resolve_range(bounds, self.size);
        BufferViewMut::new(self, offset, size)
    }
}

/// Slice into a region of memory: a part of a [`Buffer`], memory managed by
/// Embree (created together with a geometry), or memory owned by the caller.
#[derive(Clone, Copy, Debug, PartialEq, Eq)]
pub enum BufferSlice<'src> {
    /// Slice into a [`Buffer`] object.
    Buffer {
        /// The buffer.
        buffer: &'src Buffer,
        /// Offset of the slice in bytes.
        offset: usize,
        /// Size of the slice in bytes.
        size: usize,
    },
    /// Slice into memory managed by Embree.
    Internal {
        /// Size of the memory in bytes.
        size: usize,
    },
    /// Slice into memory owned by the caller.
    User {
        /// Offset of the slice in bytes from the start of the memory.
        offset: usize,
        /// Size in bytes, counted from the start of the memory.
        size: usize,
    },
}

/// Byte offset and size in bytes of a slice of user memory covering elements
/// `first .. first + count` of `elem_size` bytes each.
pub open spec fn user_slice_extent(first: int, count: int, elem_size: int) -> (int, int) {
    (first * elem_size, count * elem_size)
}

/// A slice of user memory made by [`BufferSlice::from_slice`] from the element
/// range `a..b` of `len` elements starts at element `a` and, viewed as
/// elements of `T`, holds exactly the `b - a` elements `a..b`.
pub proof fn lemma_sub_slice_view<T>(len: usize, bounds: RangeSpec, s: BufferSlice)
    requires
        range_selects_within(bounds, len as int),
        vstd::layout::size_of::<T>() > 0,
        (resolved_range(bounds, len as int).0 + resolved_range(bounds, len as int).1)
            * vstd::layout::size_of::<T>() <= usize::MAX,
        s == (BufferSlice::User {
            offset: user_slice_extent(resolved_range(bounds, len as int).0,
                resolved_range(bounds, len as int).1, vstd::layout::size_of::<T>() as int).0 as usize,
            size: user_slice_extent(resolved_range(bounds, len as int).0,
                resolved_range(bounds, len as int).1, vstd::layout::size_of::<T>() as int).1 as usize,
        }),
    ensures
        s.start_offset() == resolved_range(bounds, len as int).0 * vstd::layout::size_of::<T>(),
        s.byte_size() % (vstd::layout::size_of::<T>() as int) == 0,
        s.element_count::<T>() == resolved_range(bounds, len as int).1,
        resolved_range(bounds, len as int).0 + s.element_count::<T>() <= len,
{
    let first = resolved_range(bounds, len as int).0;
    let count = resolved_range(bounds, len as int).1;
    let elem = vstd::layout::size_of::<T>() as int;
    assert(0 <= first * elem <= (first + count) * elem && 0 <= count * elem <= (first + count) * elem)
        by (nonlinear_arith)
        requires elem > 0, 0 <= first, 0 <= count;
    assert((count * elem) % elem == 0 && (count * elem) / elem == count) by (nonlinear_arith)
        requires elem > 0;
}

impl<'src> BufferSlice<'src> {
    /// Describes the slice of user memory holding `len` elements of type `T`
    /// that `bounds` selects (element indices); a range with no end reaches to
    /// the last element. The slice starts at the first selected element and
    /// holds exactly the selected elements.
    pub fn from_slice<T>(len: usize, bounds: RangeSpec) -> (r: BufferSlice<'src>)
        requires
            range_selects_within(bounds, len as int),
            vstd::layout::size_of::<T>() > 0,
            (resolved_range(bounds, len as int).0 + resolved_range(bounds, len as int).1)
                * vstd::layout::size_of::<T>() <= usize::MAX,
        ensures
            r == (BufferSlice::User {
                offset: user_slice_extent(resolved_range(bounds, len as int).0,
                    resolved_range(bounds, len as int).1, vstd::layout::size_of::<T>() as int).0 as usize,
                size: user_slice_extent(resolved_range(bounds, len as int).0,
                    resolved_range(bounds, len as int).1, vstd::layout::size_of::<T>() as int).1 as usize,
            }),
            r.start_offset() == resolved_range(bounds, len as int).0 * vstd::layout::size_of::<T>(),
            r.byte_size() % (vstd::layout::size_of::<T>() as int) == 0,
            r.element_count::<T>() == resolved_range(bounds, len as int).1,
    {
        let (first, count) = resolve_range(bounds, len);
        let elem_size = core::mem::size_of::<T>();
        assert(first * elem_size <= (first + count) * elem_size && count * elem_size <= (first + count) * elem_size)
            by (nonlinear_arith)
            requires elem_size > 0;
        assert((count * elem_size) % (elem_size as int) == 0 && (count * elem_size) / (elem_size as int) == count)
            by (nonlinear_arith)
            requires elem_size > 0;
        BufferSlice::User { offset: first * elem_size, size: count * elem_size }
    }

    /// Number of elements of type `T` the slice holds.
    pub open spec fn element_count<T>(&self) -> int {
        match self {
            BufferSlice::Buffer { size, .. } => (*size as int) / (vstd::layout::size_of::<T>() as int),
            BufferSlice::Internal { size } => (*size as int) / (vstd::layout::size_of::<T>() as int),
            BufferSlice::User { size, .. } => (*size as int) / (vstd::layout::size_of::<T>() as int),
        }
    }

    /// Size in bytes recorded for the slice.
    pub open spec fn byte_size(&self) -> int {
        match self {
            BufferSlice::Buffer { size, .. } => *size as int,
            BufferSlice::Internal { size } => *size as int,
            BufferSlice::User { size, .. } => *size as int,
        }
    }

    /// Byte offset of the first element of the slice within its memory.
    pub open spec fn start_offset(&self) -> int {
        match self {
            BufferSlice::Buffer { offset, .. } => *offset as int,
            BufferSlice::Internal { .. } => 0,
            BufferSlice::User { offset, .. } => *offset as int,
        }
    }

    /// Read-only view of the slice as elements of type `T`.
    pub fn view<T>(&self) -> (r: SliceView<T>)
        requires
            vstd::layout::size_of::<T>() > 0,
            self.byte_size() % (vstd::layout::size_of::<T>() as int) == 0,
            self is Buffer ==> self.start_offset() % (vstd::layout::size_of::<T>() as int) == 0,
        ensures
            r.byte_offset() == self.start_offset(),
            r.len() == self.element_count::<T>(),
    {
        let elem = core::mem::size_of::<T>();
        match self {
            BufferSlice::Buffer { offset, size, .. } => SliceView::new(*offset, *size / elem),
            BufferSlice::Internal { size } => SliceView::new(0, *size / elem),
            BufferSlice::User { offset, size } => SliceView::new(*offset, *size / elem),
        }
    }

    /// Writable view of the slice as elements of type `T`.
    pub fn view_mut<T>(&self) -> (r: SliceView<T>)
        requires
            vstd::layout::size_of::<T>() > 0,
            self.byte_size() % (vstd::layout::size_of::<T>() as int) == 0,
            self is Buffer ==> self.start_offset() % (vstd::layout::size_of::<T>() as int) == 0,
        ensures
            r.byte_offset() == self.start_offset(),
            r.len() == self.element_count::<T>(),
    {
        self.view::<T>()
    }
}

/// Position and length of a typed view of a slice: the first element starts
/// `byte_offset` bytes into the slice's memory and there are `len` elements.
pub struct SliceView<T> {
    offset: usize,
    len: usize,
    marker: core::marker::PhantomData<T>,
}

impl<T> SliceView<T> {
    /// Byte offset of the first element.
    pub closed spec fn byte_offset(&self) -> int {
        self.offset as int
    }

    /// Number of elements.
    pub closed spec fn len(&self) -> int {
        self.len as int
    }

    fn new(offset: usize, len: usize) -> (r: Self)
        ensures
            r.byte_offset() == offset,
            r.len() == len,
    {
        SliceView { offset, len, marker: core::marker::PhantomData }
    }

    /// Byte offset of the first element, as an executable value.
    pub fn offset(&self) -> (r: usize)
        ensures
            r == self.byte_offset(),
    {
        self.offset
    }

    /// Number of elements, as an executable value.
    pub fn count(&self) -> (r: usize)
        ensures
            r == self.len(),
    {
        self.len
    }
}

/// A read-only view into a mapped buffer range, as elements of type `T`.
pub struct BufferView<'buf, T> {
    buffer: &'buf Buffer,
    offset: usize,
    len: usize,
    marker: core::marker::PhantomData<T>,
}

impl<'buf, T> BufferView<'buf, T> {
    /// The viewed buffer.
    pub closed spec fn source(&self) -> Buffer {
        *self.buffer
    }

    /// Byte offset of the view in the buffer.
    pub closed spec fn byte_offset(&self) -> int {
        self.offset as int
    }

    /// Number of elements of the view.
    pub closed spec fn len(&self) -> int {
        self.len as int
    }

    /// Creates a view of `size` bytes of `buffer` starting at byte `offset`.
    pub fn new(buffer: &'buf Buffer, offset: usize, size: usize) -> (r: Self)
        requires
            vstd::layout::size_of::<T>() > 0,
            (offset as int) % (vstd::layout::size_of::<T>() as int) == 0,
            (size as int) % (vstd::layout::size_of::<T>() as int) == 0,
        ensures
            r.source() == *buffer,
            r.byte_offset() == offset,
            r.len() == (size as int) / (vstd::layout::size_of::<T>() as int),
    {
        let len = size / core::mem::size_of::<T>();
        BufferView { buffer, offset, len, marker: core::marker::PhantomData }
    }

    /// Byte offset of the view in the buffer, as an executable value.
    pub fn offset(&self) -> (r: usize)
        ensures
            r == self.byte_offset(),
    {
        self.offset
    }

    /// Number of elements of the view, as an executable value.
    pub fn count(&self) -> (r: usize)
        ensures
            r == self.len(),
    {
        self.len
    }
}

/// A writable view into a mapped buffer range, as elements of type `T`.
pub struct BufferViewMut<'buf, T> {
    buffer: &'buf mut Buffer,
    offset: usize,
    len: usize,
    marker: core::marker::PhantomData<T>,
}

impl<'buf, T> BufferViewMut<'buf, T> {
    /// The viewed buffer.
    pub closed spec fn source(&self) -> Buffer {
        *self.buffer
    }

    /// Byte offset of the view in the buffer.
    pub closed spec fn byte_offset(&self) -> int {
        self.offset as int
    }

    /// Number of elements of the view.
    pub closed spec fn len(&self) -> int {
        self.len as int
    }

    /// Creates a view of `size` bytes of `buffer` starting at byte `offset`.
    pub fn new(buffer: &'buf mut Buffer, offset: usize, size: usize) -> (r: Self)
        requires
            vstd::layout::size_of::<T>() > 0,
            (offset as int) % (vstd::layout::size_of::<T>() as int) == 0,
            (size as int) % (vstd::layout::size_of::<T>() as int) == 0,
        ensures
            r.source() == *old(buffer),
            r.byte_offset() == offset,
            r.len() == (size as int) / (vstd::layout::size_of::<T>() as int),
    {
        let len = size / core::mem::size_of::<T>();
        BufferViewMut { buffer, offset, len, marker: core::marker::PhantomData }
    }

    /// Byte offset of the view in the buffer, as an executable value.
    pub fn offset(&self) -> (r: usize)
        ensures
            r == self.byte_offset(),
    {
        self.offset
    }

    /// Number of elements of the view, as an executable value.
    pub fn count(&self) -> (r: usize)
        ensures
            r == self.len(),
    {
        self.len
    }
}

} // verus!
