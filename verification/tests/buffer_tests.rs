use embree::buffer::{Buffer, BufferSlice};
use embree::range::{range_bounds_to_offset_and_size, resolve_range, try_resolve_range, Bound, RangeSpec};

#[test]
fn buffer_size_is_padded_to_sixteen_bytes() {
    assert_eq!(Buffer::new(1).size(), 16);
    assert_eq!(Buffer::new(16).size(), 16);
    assert_eq!(Buffer::new(17).size(), 32);
    assert_eq!(Buffer::new(100).size(), 112);
    assert_eq!(Buffer::new(usize::MAX - 15).size(), usize::MAX - 15);
}

#[test]
fn range_bounds_offsets_and_sizes() {
    assert_eq!(range_bounds_to_offset_and_size(RangeSpec::full()), (0, None));
    assert_eq!(range_bounds_to_offset_and_size(RangeSpec::half_open(4, 10)), (4, Some(6)));
    assert_eq!(range_bounds_to_offset_and_size(RangeSpec::from(8)), (8, None));
    let inclusive = RangeSpec { start: Bound::Included(2), end: Bound::Included(5) };
    assert_eq!(range_bounds_to_offset_and_size(inclusive), (2, Some(4)));
    let excluded_start = RangeSpec { start: Bound::Excluded(2), end: Bound::Excluded(5) };
    assert_eq!(range_bounds_to_offset_and_size(excluded_start), (3, Some(2)));
    let empty = RangeSpec::half_open(3, 3);
    assert_eq!(range_bounds_to_offset_and_size(empty), (3, Some(0)));
}

#[test]
fn resolve_range_reaches_to_the_end() {
    assert_eq!(resolve_range(RangeSpec::full(), 64), (0, 64));
    assert_eq!(resolve_range(RangeSpec::from(16), 64), (16, 48));
    assert_eq!(resolve_range(RangeSpec::half_open(16, 32), 64), (16, 16));
}

#[test]
fn buffer_slices() {
    let buffer = Buffer::new(64);
    match buffer.slice(RangeSpec::from(16)) {
        BufferSlice::Buffer { offset, size, .. } => {
            assert_eq!(offset, 16);
            assert_eq!(size, 48);
        }
        _ => panic!("a slice of a buffer is a buffer slice"),
    }
    match buffer.slice(RangeSpec::full()) {
        BufferSlice::Buffer { offset, size, .. } => {
            assert_eq!((offset, size), (0, 64));
        }
        _ => panic!("a slice of a buffer is a buffer slice"),
    }
}

#[test]
fn mapped_ranges_count_elements() {
    let mut buffer = Buffer::new(48);
    let view = buffer.mapped_range::<[f32; 4]>(RangeSpec::from(16));
    assert_eq!(view.offset(), 16);
    assert_eq!(view.count(), 2);
    let view = buffer.mapped_range::<u32>(RangeSpec::full());
    assert_eq!(view.count(), 12);
    let view = buffer.mapped_range_mut::<u32>(RangeSpec::half_open(8, 24));
    assert_eq!(view.offset(), 8);
    assert_eq!(view.count(), 4);
}

#[test]
fn user_slices_record_offset_and_size_in_bytes() {
    let s = BufferSlice::from_slice::<u32>(10, RangeSpec::half_open(2, 5));
    assert_eq!(s, BufferSlice::User { offset: 8, size: 12 });
    let s = BufferSlice::from_slice::<u32>(5, RangeSpec::half_open(1, 3));
    assert_eq!(s, BufferSlice::User { offset: 4, size: 8 });
    let v = s.view::<u32>();
    assert_eq!((v.offset(), v.count()), (4, 2));
    let s = BufferSlice::from_slice::<[f32; 3]>(4, RangeSpec::full());
    assert_eq!(s, BufferSlice::User { offset: 0, size: 48 });
    let v = s.view::<f32>();
    assert_eq!((v.offset(), v.count()), (0, 12));
    let internal = BufferSlice::Internal { size: 64 };
    let v = internal.view_mut::<[u32; 4]>();
    assert_eq!((v.offset(), v.count()), (0, 4));
    let buffer = Buffer::new(64);
    let v = buffer.slice(RangeSpec::from(32)).view::<u64>();
    assert_eq!((v.offset(), v.count()), (32, 4));
}

#[test]
fn try_resolve_range_refuses_what_lies_outside() {
    assert_eq!(try_resolve_range(RangeSpec::full(), 64), Some((0, 64)));
    assert_eq!(try_resolve_range(RangeSpec::half_open(16, 48), 64), Some((16, 32)));
    assert_eq!(try_resolve_range(RangeSpec::from(60), 64), Some((60, 4)));
    assert_eq!(try_resolve_range(RangeSpec::from(64), 64), None);
    assert_eq!(try_resolve_range(RangeSpec::half_open(16, 80), 64), None);
    assert_eq!(try_resolve_range(RangeSpec::half_open(8, 8), 64), None);
    assert_eq!(try_resolve_range(RangeSpec::half_open(9, 8), 64), None);
    let inclusive = RangeSpec { start: Bound::Included(0), end: Bound::Included(63) };
    assert_eq!(try_resolve_range(inclusive, 64), Some((0, 64)));
    let past_max = RangeSpec { start: Bound::Excluded(usize::MAX), end: Bound::Unbounded };
    assert_eq!(try_resolve_range(past_max, 64), None);
    assert_eq!(try_resolve_range(RangeSpec::full(), 0), None);
}
