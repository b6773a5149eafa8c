use std::cmp::Ordering;

use vector::homogeneous;
use vector::plane::Component;
use vector::{cross, cross2, div_ceil, dot, sq, sum, xy, xyz, xyzw, Additive, ComponentWiseMinMax};

#[test]
fn add_dot_cross2_of_two_vectors() {
    let a = xy { x: 1i32, y: 2 };
    let b = xy { x: 3i32, y: 4 };
    assert_eq!(a.add(b), xy { x: 4, y: 6 });
    assert_eq!(dot(a, b), 11);
    assert_eq!(cross2(a, b), -2);
}

#[test]
fn add_then_sub_gives_back_the_vector() {
    let a = xyz { x: -5i64, y: 7, z: 1 << 40 };
    let b = xyz { x: 12i64, y: -3, z: 9 };
    assert_eq!(a.add(b).sub(b), a);
    let c = xy { x: 250u8, y: 0 };
    let d = xy { x: 5u8, y: 255 };
    assert_eq!(c.add(d).sub(d), c);
}

#[test]
fn dot_is_symmetric() {
    let a = xyzw { x: 1i32, y: -2, z: 3, w: 4 };
    let b = xyzw { x: 5i32, y: 6, z: -7, w: 8 };
    assert_eq!(dot(a, b), dot(b, a));
    assert_eq!(dot(a, b), 5 - 12 - 21 + 32);
}

#[test]
fn squared_length_is_never_negative_and_scales_by_the_square() {
    let v = xyz { x: -3i32, y: 4, z: -12 };
    assert_eq!(sq(v), 169);
    assert!(sq(v) >= 0);
    let w = v.scale(-2);
    assert_eq!(w, xyz { x: 6, y: -8, z: 24 });
    assert_eq!(sq(w), 4 * 169);
    assert_eq!(sq(xy { x: 0i32, y: 0 }), 0);
}

#[test]
fn component_wise_arithmetic() {
    let a = xy { x: 7i32, y: -7 };
    let b = xy { x: 2i32, y: 2 };
    assert_eq!(a.mul(b), xy { x: 14, y: -14 });
    assert_eq!(a.div(b), xy { x: 3, y: -3 });
    assert_eq!(a.neg(), xy { x: -7, y: 7 });
    assert_eq!(a.div_scalar(-2), xy { x: -3, y: 3 });
    assert_eq!(b.scale(5), xy { x: 10, y: 10 });
    assert_eq!(xy { x: 4i32, y: -3 }.scalar_div(-13), xy { x: -3, y: 4 });
    assert_eq!(xy::<u32>::zero(), xy { x: 0, y: 0 });
}

#[test]
fn in_place_arithmetic_matches_the_plain_operations() {
    let a = xyz { x: 9i32, y: -4, z: 2 };
    let b = xyz { x: 3i32, y: 2, z: -1 };
    let mut v = a;
    v.add_assign(b);
    assert_eq!(v, a.add(b));
    let mut v = a;
    v.sub_assign(b);
    assert_eq!(v, a.sub(b));
    let mut v = a;
    v.mul_assign(b);
    assert_eq!(v, a.mul(b));
    let mut v = a;
    v.div_assign(b);
    assert_eq!(v, xyz { x: 3, y: -2, z: -2 });
}

#[test]
fn equality_against_a_scalar() {
    assert!(xyz { x: 5u16, y: 5, z: 5 }.eq_scalar(&5));
    assert!(!xyz { x: 5u16, y: 4, z: 5 }.eq_scalar(&5));
    assert!(xy::splat(-1i8).eq_scalar(&-1));
}

#[test]
fn partial_order_needs_every_component_to_agree() {
    let a = xy { x: 1i32, y: 2 };
    assert_eq!(a.partial_cmp(&a), Some(Ordering::Equal));
    assert_eq!(a.partial_cmp(&xy { x: 3, y: 4 }), Some(Ordering::Less));
    assert_eq!(xy { x: 3, y: 4 }.partial_cmp(&a), Some(Ordering::Greater));
    assert_eq!(a.partial_cmp(&xy { x: 0, y: 5 }), None);
    assert_eq!(a.partial_cmp(&xy { x: 1, y: 5 }), None);
}

#[test]
fn component_wise_min_and_max_go_per_axis() {
    let a = xy { x: 1i32, y: 9 };
    let b = xy { x: 5i32, y: -3 };
    assert_eq!(a.component_wise_min(b), xy { x: 1, y: -3 });
    assert_eq!(a.component_wise_max(b), xy { x: 5, y: 9 });
    assert!(a.equals(&xy { x: 1, y: 9 }));
    assert!(!a.equals(&b));
}

#[test]
fn narrowing_an_out_of_range_component_fails() {
    let v = xy { x: 300u16, y: 10 };
    assert_eq!(v.try_cast::<u8>(), None);
    assert_eq!(xy { x: 200u16, y: 10 }.try_cast::<u8>(), Some(xy { x: 200u8, y: 10 }));
    assert_eq!(xy { x: -1i32, y: 10 }.try_cast::<u32>(), None);
}

#[test]
fn widening_keeps_the_values() {
    let v = xyzw { x: 255u8, y: 0, z: 7, w: 128 };
    let w: xyzw<u16> = v.cast();
    assert_eq!(w, xyzw { x: 255, y: 0, z: 7, w: 128 });
    let u: xyzw<u32> = w.cast();
    assert_eq!(u, xyzw { x: 255, y: 0, z: 7, w: 128 });
    let s: xy<i64> = xy { x: u32::MAX, y: 1 }.cast();
    assert_eq!(s, xy { x: 4294967295, y: 1 });
}

#[test]
fn signed_and_unsigned_coordinates() {
    let u = xy { x: 3u32, y: 7 };
    assert_eq!(u.signed(), xy { x: 3i32, y: 7 });
    assert_eq!(xy { x: 3i32, y: 7 }.try_unsigned(), Some(u));
    assert_eq!(xy { x: 3i32, y: -7 }.try_unsigned(), None);
    assert_eq!(xy { x: 0i32, y: 7 }.unsigned(), xy { x: 0u32, y: 7 });
}

#[test]
fn construction_and_conversion() {
    let v = xyz::from_array([1u32, 2, 3]);
    assert_eq!(v, xyz { x: 1, y: 2, z: 3 });
    assert_eq!(v.to_array(), [1, 2, 3]);
    assert_eq!(xyz::from_tuple((4, 5, 6)), xyz { x: 4, y: 5, z: 6 });
    assert_eq!(v.to_tuple(), (1, 2, 3));
    assert_eq!(xyzw::splat(9u8), xyzw { x: 9, y: 9, z: 9, w: 9 });
    assert_eq!(xy { x: 1, y: 2 }.yx(), xy { x: 2, y: 1 });
}

#[test]
fn map_zip_and_transpose() {
    let v = xy { x: 2i32, y: -3 };
    assert_eq!(v.map(|c: i32| (c as i64) * 10), xy { x: 20i64, y: -30 });
    assert_eq!(v.zip(xy { x: 'a', y: 'b' }), xy { x: (2, 'a'), y: (-3, 'b') });
    assert_eq!(xy { x: Some(1), y: Some(2) }.transpose(), Some(xy { x: 1, y: 2 }));
    assert_eq!(xy { x: Some(1), y: None::<i32> }.transpose(), None);
}

#[test]
fn components_by_name() {
    let v = xy { x: 10i32, y: 20 };
    assert_eq!(*v.index(Component::X), 10);
    assert_eq!(*v.index(Component::Y), 20);
    assert_eq!(xy::<i32>::enumerate(), [Component::X, Component::Y]);
    let w = xyzw { x: 1, y: 2, z: 3, w: 4 };
    assert_eq!(*w.index(homogeneous::Component::W), 4);
    assert_eq!(homogeneous::Component::enumerate().len(), 4);
}

#[test]
fn projections_of_a_three_vector() {
    let v = xyz { x: 1, y: 2, z: 3 };
    assert_eq!(xyz::xy_z(xy { x: 1, y: 2 }, 3), v);
    assert_eq!(v.xy(), xy { x: 1, y: 2 });
    assert_eq!(v.yz(), xy { x: 2, y: 3 });
    assert_eq!(v.zx(), xy { x: 3, y: 1 });
    assert_eq!(v.xz(), xy { x: 1, y: 3 });
}

#[test]
fn cross_product_of_three_vectors() {
    let x = xyz { x: 1i32, y: 0, z: 0 };
    let y = xyz { x: 0i32, y: 1, z: 0 };
    assert_eq!(cross(x, y), xyz { x: 0, y: 0, z: 1 });
    let a = xyz { x: 2i32, y: 3, z: 4 };
    let b = xyz { x: 5i32, y: 6, z: 7 };
    assert_eq!(cross(a, b), xyz { x: -3, y: 6, z: -3 });
}

#[test]
fn sum_of_vectors_starts_from_zero() {
    let items = vec![xy { x: 1i32, y: 2 }, xy { x: 3, y: 4 }, xy { x: -10, y: 0 }];
    assert_eq!(sum(xy::zero(), &items), xy { x: -6, y: 6 });
    assert_eq!(sum(xy::<i32>::zero(), &vec![]), xy { x: 0, y: 0 });
}

#[test]
fn division_rounded_up() {
    assert_eq!(div_ceil(xy { x: 7, y: 8 }, 4), xy { x: 2, y: 2 });
    assert_eq!(div_ceil(xy { x: 0, y: u32::MAX }, 1), xy { x: 0, y: u32::MAX });
    assert_eq!(div_ceil(xy { x: u32::MAX, y: 1 }, 2), xy { x: 2147483648, y: 1 });
}
