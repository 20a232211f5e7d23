use embree::soa::{SoAHit, SoARay, INVALID_ID};
use embree::stream::{HitNp, RayHitNp, RayNp};

#[test]
fn test_stream_layout_raynp() {
    let mut ray0 = RayNp::new(11);
    assert_eq!(ray0.aligned_field_size(), 48);

    let ray1 = RayNp::new(17);
    assert_eq!(ray1.aligned_field_size(), 80);

    let offsets = ray0.as_raw_mut();
    for offset in offsets.iter() {
        assert_eq!(*offset % 16, 0);
    }
}

#[test]
fn test_stream_new_raynp() {
    let ray = RayNp::new(135);
    for i in 0..135 {
        assert_eq!(ray.org(i).map(f32::from_bits), [0.0, 0.0, 0.0]);
        assert_eq!(ray.dir(i).map(f32::from_bits), [0.0, 0.0, 0.0]);
        assert_eq!(f32::from_bits(ray.tnear(i)), 0.0);
        assert_eq!(f32::from_bits(ray.tfar(i)), f32::INFINITY);
        assert_eq!(ray.mask(i), 0xFFFFFFFF);
        assert_eq!(ray.id(i), 0);
        assert_eq!(ray.flags(i), 0);
    }
}

#[test]
fn test_stream_layout_hitnp() {
    let mut hit0 = HitNp::new(9);
    assert_eq!(hit0.aligned_field_size(), 48);

    let hit1 = HitNp::new(18);
    assert_eq!(hit1.aligned_field_size(), 80);

    let offsets = hit0.as_raw_mut();
    for offset in offsets.iter() {
        assert_eq!(*offset % 16, 0);
    }
}

#[test]
fn test_stream_new_hitnp() {
    let hit = HitNp::new(13);
    for hit in hit.iter_hits() {
        assert_eq!(hit.normal().map(f32::from_bits), [0.0, 0.0, 0.0]);
        assert_eq!(hit.uv().map(f32::from_bits), [0.0, 0.0]);
        assert_eq!(hit.prim_id(), INVALID_ID);
        assert_eq!(hit.geom_id(), INVALID_ID);
        assert_eq!(hit.inst_id(), INVALID_ID);
    }
}

#[test]
fn ray_stream_member_offsets_are_consecutive_arrays() {
    let mut rays = RayNp::new(5);
    assert_eq!(rays.aligned_field_size(), 32);
    assert_eq!(rays.as_raw_mut(), [0, 32, 64, 96, 128, 160, 192, 224, 256, 288, 320, 352]);
    assert_eq!(rays.as_words().len(), 12 * 8);
    let words = rays.as_words();
    // the mask array is all ones, padding included; tfar is infinity for the five rays only
    assert!(words[72..80].iter().all(|w| *w == 0xffff_ffff));
    assert_eq!(&words[64..72], &[0x7f80_0000, 0x7f80_0000, 0x7f80_0000, 0x7f80_0000, 0x7f80_0000, 0, 0, 0]);
}

#[test]
fn empty_streams() {
    let rays = RayNp::new(0);
    assert!(rays.is_empty());
    assert_eq!(rays.aligned_field_size(), 0);
    let hits = HitNp::new(0);
    assert!(hits.is_empty());
    assert!(!hits.any_hit());
    assert!(hits.iter_hits().is_empty());
}

#[test]
fn stream_setters_write_one_member_of_one_ray() {
    let mut rays = RayNp::new(3);
    rays.set_org(1, [1.0f32.to_bits(), 2.0f32.to_bits(), 3.0f32.to_bits()]);
    rays.set_dir(2, [4.0f32.to_bits(), 5.0f32.to_bits(), 6.0f32.to_bits()]);
    rays.set_tnear(0, 0.5f32.to_bits());
    rays.set_tfar(0, 9.0f32.to_bits());
    rays.set_time(1, 0.25f32.to_bits());
    rays.set_mask(2, 7);
    rays.set_id(1, 42);
    rays.set_flags(0, 3);
    assert_eq!(rays.org(1).map(f32::from_bits), [1.0, 2.0, 3.0]);
    assert_eq!(rays.org(0).map(f32::from_bits), [0.0, 0.0, 0.0]);
    assert_eq!(rays.dir(2).map(f32::from_bits), [4.0, 5.0, 6.0]);
    assert_eq!(f32::from_bits(rays.tnear(0)), 0.5);
    assert_eq!(f32::from_bits(rays.tfar(0)), 9.0);
    assert_eq!(f32::from_bits(rays.tfar(1)), f32::INFINITY);
    assert_eq!(f32::from_bits(rays.time(1)), 0.25);
    assert_eq!(rays.mask(2), 7);
    assert_eq!(rays.mask(1), u32::MAX);
    assert_eq!(rays.id(1), 42);
    assert_eq!(rays.flags(0), 3);
    assert_eq!(rays.flags(1), 0);
}

#[test]
fn hit_stream_validity_and_valid_hits() {
    let mut hits = HitNp::new(6);
    assert!(!hits.any_hit());
    hits.set_geom_id(1, 0);
    hits.set_geom_id(4, 9);
    hits.set_prim_id(4, 17);
    hits.set_uv(4, [0.25f32.to_bits(), 0.5f32.to_bits()]);
    hits.set_normal(1, [1.0f32.to_bits(), 0, 0]);
    assert!(hits.any_hit());
    assert_eq!(hits.iter_validity(), vec![false, true, false, false, true, false]);
    let valid = hits.iter_hits();
    let indices: Vec<usize> = valid.iter().map(|h| h.idx()).collect();
    assert_eq!(indices, vec![1, 4]);
    assert_eq!(valid[1].prim_id(), 17);
    assert_eq!(valid[1].uv().map(f32::from_bits), [0.25, 0.5]);
    assert_eq!(valid[0].normal().map(f32::from_bits), [1.0, 0.0, 0.0]);
    assert!(valid[0].is_valid());
}

#[test]
fn ray_hit_stream_pairs_rays_and_hits() {
    let mut rays = RayNp::new(4);
    rays.set_id(2, 99);
    let mut rh = RayHitNp::new(rays);
    assert_eq!(rh.len(), 4);
    assert!(!rh.is_empty());
    rh.hit.set_geom_id(2, 5);
    let mut it = rh.iter();
    let mut count = 0;
    while let Some((r, h)) = it.next() {
        assert_eq!(r.idx(), h.idx());
        if r.idx() == 2 {
            assert_eq!(r.id(), 99);
            assert!(h.hit());
        } else {
            assert!(!h.hit());
        }
        count += 1;
    }
    assert_eq!(count, 4);
    let raw = rh.as_raw();
    assert_eq!(raw.ray[11], 11 * 16);
    assert_eq!(raw.hit[7], 7 * 16);
}

#[test]
fn mutable_iteration_writes_through() {
    let mut rays = RayNp::new(3);
    {
        let mut it = rays.iter_mut();
        assert_eq!(it.len(), 3);
        while let Some(mut r) = it.next() {
            let i = r.idx as u32;
            r.set_id(i + 10);
            r.set_tfar(1.5f32.to_bits());
        }
    }
    for i in 0..3 {
        assert_eq!(rays.id(i), i as u32 + 10);
        assert_eq!(f32::from_bits(rays.tfar(i)), 1.5);
    }
    let mut it = rays.iter();
    assert_eq!(it.len(), 3);
    let first = it.next().unwrap();
    assert_eq!(first.id(), 10);
    assert_eq!(it.len(), 2);
}
