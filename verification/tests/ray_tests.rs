use embree::context::{IntersectContext, IntersectContextFlags, INTERSECT_CONTEXT_COHERENT};
use embree::packet::{Hit16, Hit4, Hit8, Ray16, Ray4, Ray8, RayHit4};
use embree::ray::{Hit, Ray, RayHit};
use embree::soa::{SoAHit, SoARay, INVALID_ID};
use embree::transform::{Bounds, QuaternionDecomposition};

fn bits3(v: [f32; 3]) -> [u32; 3] {
    v.map(f32::to_bits)
}

#[test]
fn single_ray_constructors() {
    let r = Ray::segment(bits3([1.0, 2.0, 3.0]), bits3([0.0, 0.0, 1.0]), 0.0f32.to_bits(), 10.0f32.to_bits());
    assert_eq!(r.org().map(f32::from_bits), [1.0, 2.0, 3.0]);
    assert_eq!(r.dir().map(f32::from_bits), [0.0, 0.0, 1.0]);
    assert_eq!(f32::from_bits(r.tfar), 10.0);
    assert_eq!((r.mask, r.id, r.flags, r.time), (u32::MAX, 0, 0, 0));
    let r = Ray::segment_with_id(bits3([0.0; 3]), bits3([1.0, 0.0, 0.0]), 0, f32::INFINITY.to_bits(), 7);
    assert_eq!(r.id, 7);
    let r = Ray::new(bits3([0.0; 3]), bits3([1.0, 0.0, 0.0]), 0, 1, 2, 3, 4);
    assert_eq!((r.tnear, r.tfar, r.time, r.mask, r.id, r.flags), (0, 1, 2, 3, 4, 0));
    let d = Ray::default();
    assert_eq!(f32::from_bits(d.tfar), f32::INFINITY);
    assert_eq!(d.mask, u32::MAX);
    let mut occluded = d;
    assert!(!occluded.is_occluded());
    occluded.tfar = f32::NEG_INFINITY.to_bits();
    assert!(occluded.is_occluded());
}

#[test]
fn hits_and_ray_hits() {
    let h = Hit::default();
    assert!(!h.is_valid());
    assert_eq!((h.prim_id, h.geom_id, h.inst_id), (INVALID_ID, INVALID_ID, INVALID_ID));
    let mut h2 = h;
    h2.geom_id = 0;
    h2.u = 0.5f32.to_bits();
    assert!(h2.is_valid());
    assert_eq!(h2.barycentric().map(f32::from_bits), [0.5, 0.0]);
    assert_eq!(h2.normal(), [0, 0, 0]);
    let ray = Ray::segment([0; 3], bits3([0.0, 1.0, 0.0]), 0, 5);
    let rh = RayHit::from_ray(ray);
    assert_eq!(rh.ray, ray);
    assert_eq!(rh.hit, Hit::default());
    let rh2: RayHit = ray.into();
    assert_eq!(rh2, rh);
    assert_eq!(RayHit::default().hit, Hit::default());
}

#[test]
fn intersect_contexts() {
    let c = IntersectContext::coherent();
    assert_eq!(c.flags.bits, INTERSECT_CONTEXT_COHERENT);
    assert_eq!(c.inst_id, u32::MAX);
    let i = IntersectContext::incoherent();
    assert_eq!(i.flags.bits, 0);
    let n = IntersectContext::new(IntersectContextFlags { bits: 1 });
    assert_eq!(n, c);
}

#[test]
fn ray_packets() {
    let origins = [bits3([1.0, 2.0, 3.0]), bits3([4.0, 5.0, 6.0]), bits3([7.0, 8.0, 9.0]), bits3([0.0, 0.0, 0.0])];
    let dirs = [bits3([0.0, 0.0, 1.0]); 4];
    let p = Ray4::new(origins, dirs);
    for i in 0..4 {
        assert_eq!(p.org(i), origins[i]);
        assert_eq!(p.dir(i), dirs[i]);
        assert_eq!(p.tnear(i), 0);
        assert_eq!(f32::from_bits(p.tfar(i)), f32::INFINITY);
        assert_eq!(p.mask(i), u32::MAX);
        assert_eq!((p.id(i), p.flags(i), p.time(i)), (0, 0, 0));
    }
    let s = Ray4::segment(origins, dirs, [1, 2, 3, 4], [5, 6, 7, 8]);
    assert_eq!((s.tnear(2), s.tfar(3)), (3, 8));
    let e = Ray8::empty();
    assert_eq!(e.org(7), [0, 0, 0]);
    assert_eq!(f32::from_bits(e.tfar(7)), f32::INFINITY);
    let d = Ray16::default();
    assert_eq!(d.mask(15), u32::MAX);
    let mut it = p.iter();
    let mut n = 0;
    while let Some(r) = it.next() {
        assert_eq!(r.origin(), origins[n]);
        n += 1;
    }
    assert_eq!(n, 4);
}

#[test]
fn ray_packet_layout_matches_stream_layout() {
    let mut p = Ray4::empty();
    p.set_id(1, 11);
    p.set_tfar(3, 2.0f32.to_bits());
    let words = p.as_words();
    assert_eq!(words.len(), 48);
    assert_eq!(words[10 * 4 + 1], 11);
    assert_eq!(f32::from_bits(words[8 * 4 + 3]), 2.0);
}

#[test]
fn hit_packets() {
    let mut h = Hit4::new();
    assert!(!h.any_hit());
    assert_eq!(h.hits(), vec![false; 4]);
    h.set_geom_id(2, 1);
    assert!(h.any_hit());
    assert_eq!(h.hits(), vec![false, false, true, false]);
    let valid: Vec<usize> = h.iter_hits().iter().map(|x| x.idx()).collect();
    assert_eq!(valid, vec![2]);
    let mut h8 = Hit8::default();
    h8.set_geom_id(6, 3);
    assert!(h8.any_hit());
    assert_eq!(h8.hits()[6], true);
    let valid: Vec<usize> = h8.iter_hits().iter().map(|x| x.idx()).collect();
    assert_eq!(valid, vec![6]);
    h8.set_geom_id(0, 3);
    let valid: Vec<usize> = h8.iter_hits().iter().map(|x| x.idx()).collect();
    assert_eq!(valid, vec![0, 6]);
    let mut h16 = Hit16::new();
    assert!(h16.iter_hits().is_empty());
    h16.set_geom_id(15, 2);
    h16.set_geom_id(9, 2);
    let valid: Vec<usize> = h16.iter_hits().iter().map(|x| x.idx()).collect();
    assert_eq!(valid, vec![9, 15]);
    assert_eq!(h16.prim_id(15), INVALID_ID);
    assert_eq!(h16.inst_id(0), INVALID_ID);
}

#[test]
fn ray_hit_packets() {
    let rh = RayHit4::new(Ray4::empty());
    assert!(!rh.hit.any_hit());
    let mut it = rh.iter();
    let mut n = 0;
    while let Some((r, h)) = it.next() {
        assert_eq!(r.idx(), n);
        assert_eq!(h.idx(), n);
        assert!(!h.hit());
        n += 1;
    }
    assert_eq!(n, 4);
}

#[test]
fn quaternion_decomposition() {
    let mut q = QuaternionDecomposition::identity();
    assert_eq!(q.scale().map(f32::from_bits), [1.0, 1.0, 1.0]);
    assert_eq!(q.quaternion().map(f32::from_bits), [1.0, 0.0, 0.0, 0.0]);
    assert_eq!(q, QuaternionDecomposition::default());
    q.set_scale(bits3([2.0, 3.0, 4.0]));
    q.set_skew(bits3([0.5, 0.25, 0.125]));
    q.set_shift(bits3([1.0, 1.0, 1.0]));
    q.set_translation(bits3([9.0, 8.0, 7.0]));
    q.set_quaternion([0.0f32, 1.0, 0.0, 0.0].map(f32::to_bits));
    assert_eq!(q.scale().map(f32::from_bits), [2.0, 3.0, 4.0]);
    assert_eq!(q.skew().map(f32::from_bits), [0.5, 0.25, 0.125]);
    assert_eq!(q.shift().map(f32::from_bits), [1.0, 1.0, 1.0]);
    assert_eq!(f32::from_bits(q.translation_y), 8.0);
    assert_eq!(q.quaternion().map(f32::from_bits), [0.0, 1.0, 0.0, 0.0]);
}

#[test]
fn default_bounds() {
    let b = Bounds::default();
    assert_eq!(b.lower().map(f32::from_bits), [f32::INFINITY; 3]);
    assert_eq!(b.upper().map(f32::from_bits), [f32::INFINITY; 3]);
    assert_eq!((b.align0, b.align1), (0, 0));
}

#[test]
fn ray_hit_packet_iteration_pairs_lanes_in_order() {
    let one = 1.0f32.to_bits();
    let origins = [[0, 0, 0], [one, 0, 0], [0, one, 0], [0, 0, one]];
    let mut rh = RayHit4::new(Ray4::new(origins, [[0, 0, one]; 4]));
    for i in 0..4 {
        rh.hit.set_geom_id(i, 10 + i as u32);
        rh.hit.set_prim_id(i, 20 + i as u32);
    }
    let mut it = rh.iter();
    let mut k = 0;
    while let Some((a, b)) = it.next() {
        assert_eq!(a.idx(), k);
        assert_eq!(b.idx(), k);
        assert_eq!(a.origin(), origins[k]);
        assert_eq!(f32::from_bits(a.tfar()), f32::INFINITY);
        assert_eq!(b.geom_id(), 10 + k as u32);
        assert_eq!(b.prim_id(), 20 + k as u32);
        k += 1;
    }
    assert_eq!(k, 4);
    assert!(it.next().is_none());
}
