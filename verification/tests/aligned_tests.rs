use embree::aligned::{aligned_layout, filled_vector};

#[test]
fn test_aligned_vector_alloc() {
    assert_eq!(aligned_layout::<f32>(24, 16), (24 * 4, 16));
    let v = filled_vector::<f32>(24, 1.0);
    assert_eq!(v.len(), 24);
    for x in v.iter() {
        assert_eq!(*x, 1.0);
    }
}

#[test]
fn filled_vector_has_requested_length_and_value() {
    let v = filled_vector::<u32>(7, 0xdead);
    assert_eq!(v.len(), 7);
    assert!(v.iter().all(|x| *x == 0xdead));
    let empty = filled_vector::<u64>(0, 3);
    assert!(empty.is_empty());
}

#[test]
fn aligned_layout_takes_the_larger_alignment() {
    assert_eq!(aligned_layout::<f32>(24, 16), (96, 16));
    assert_eq!(aligned_layout::<u64>(3, 4), (24, 8));
    assert_eq!(aligned_layout::<u8>(5, 1), (5, 1));
}
