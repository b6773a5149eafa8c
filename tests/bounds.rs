use vector::{max, min, minmax, reduce_minmax, xy, MinMax, Rect};

fn rect(x0: i32, y0: i32, x1: i32, y1: i32) -> Rect {
    MinMax { min: xy { x: x0, y: y0 }, max: xy { x: x1, y: y1 } }
}

#[test]
fn merge_of_two_boxes() {
    let a = rect(0, 0, 10, 10);
    let b = rect(5, -5, 15, 5);
    assert_eq!(a.minmax(b), rect(0, -5, 15, 10));
}

#[test]
fn merge_is_commutative_and_associative() {
    let a = rect(0, 0, 10, 10);
    let b = rect(5, -5, 15, 5);
    let c = rect(-3, 2, 4, 20);
    assert_eq!(a.minmax(b), b.minmax(a));
    assert_eq!(a.minmax(b).minmax(c), a.minmax(b.minmax(c)));
}

#[test]
fn a_box_contains_its_ends() {
    let b = rect(-2, 3, 8, 9);
    assert!(b.contains(b.min));
    assert!(b.contains(b.max));
    assert!(b.contains(xy { x: 0, y: 5 }));
    assert!(!b.contains(xy { x: 0, y: 10 }));
    assert!(!b.contains(xy { x: -3, y: 5 }));
}

#[test]
fn clip_stays_in_the_bound() {
    let bound = rect(0, 0, 10, 10);
    let b = rect(-5, 2, 4, 20);
    let c = b.clip(bound);
    assert_eq!(c, rect(0, 2, 4, 10));
    assert!(bound.contains(c.min));
    assert!(bound.contains(c.max));
}

#[test]
fn clip_without_overlap_collapses_to_the_nearest_edge_of_the_box() {
    let bound = rect(0, 0, 10, 10);
    let b = rect(20, 20, 30, 30);
    assert_eq!(b.clip(bound), rect(20, 20, 20, 20));
}

#[test]
fn clip_of_scalars() {
    let b = MinMax { min: 3u8, max: 9 };
    assert_eq!(b.clip(MinMax { min: 5, max: 200 }), MinMax { min: 5, max: 9 });
}

#[test]
fn folds_over_points() {
    let points = vec![xy { x: 3i32, y: -1 }, xy { x: -4, y: 6 }, xy { x: 0, y: 2 }];
    assert_eq!(min(&points), Some(xy { x: -4, y: -1 }));
    assert_eq!(max(&points), Some(xy { x: 3, y: 6 }));
    assert_eq!(minmax(&points), Some(rect(-4, -1, 3, 6)));
    assert_eq!(minmax(&vec![7u32]), Some(MinMax { min: 7, max: 7 }));
}

#[test]
fn folds_over_nothing_give_none() {
    let none: Vec<xy<i32>> = vec![];
    assert_eq!(min(&none), None);
    assert_eq!(max(&none), None);
    assert_eq!(minmax(&none), None);
    assert_eq!(reduce_minmax::<xy<i32>>(&vec![]), None);
}

#[test]
fn reduce_boxes() {
    let boxes = vec![rect(0, 0, 1, 1), rect(5, -5, 6, -4), rect(-2, 3, 0, 4)];
    assert_eq!(reduce_minmax(&boxes), Some(rect(-2, -5, 6, 4)));
}

#[test]
fn translate_and_size() {
    let mut b = rect(1, 2, 5, 7);
    b.translate(xy { x: -1, y: 10 });
    assert_eq!(b, rect(0, 12, 4, 17));
    assert_eq!(b.size(), xy { x: 4, y: 5 });
    assert_eq!(rect(5, 5, 2, 2).size(), xy { x: -3, y: -3 });
}

#[test]
fn map_and_try_map_of_a_box() {
    let b = MinMax { min: 2i32, max: 5 };
    assert_eq!(b.map(|v: i32| v * 3), MinMax { min: 6, max: 15 });
    assert_eq!(b.try_map(|v: i32| if v > 0 { Some(v as u32) } else { None }), Some(MinMax { min: 2u32, max: 5 }));
    let c = MinMax { min: -2i32, max: 5 };
    assert_eq!(c.try_map(|v: i32| if v > 0 { Some(v as u32) } else { None }), None);
}

#[test]
fn area_and_extend_of_a_rectangle() {
    let r = rect(-2, 1, 3, 5);
    assert_eq!(r.area(), 20);
    assert_eq!(r.extend(2), rect(-4, -1, 5, 7));
    let u = MinMax { min: xy { x: 1u32, y: 1 }, max: xy { x: 4, y: 3 } };
    assert_eq!(u.area(), 6);
    assert_eq!(u.signed(), rect(1, 1, 4, 3));
}

#[test]
fn rectangle_coordinate_spaces() {
    let r = rect(1, 2, 3, 4);
    let u = MinMax { min: xy { x: 1u32, y: 2 }, max: xy { x: 3, y: 4 } };
    assert_eq!(r.try_unsigned(), Some(u));
    assert_eq!(r.unsigned(), u);
    assert_eq!(rect(-1, 2, 3, 4).try_unsigned(), None);
    assert_eq!(Rect::from_size(xy { x: 640, y: 480 }), rect(0, 0, 640, 480));
}

#[test]
fn moving_a_rectangle() {
    let r = rect(1, 2, 3, 4);
    assert_eq!(xy { x: 10, y: -10 }.add_rect(r), rect(11, -8, 13, -6));
    assert_eq!(r.sub(xy { x: 1, y: 5 }), rect(0, -3, 2, -1));
}

#[test]
fn extend_and_move_by_more_than_the_signed_range() {
    let r = rect(i32::MAX, i32::MAX, -1, -1);
    assert_eq!(r.extend(2147483648), rect(-1, -1, i32::MAX, i32::MAX));
    let s = rect(i32::MAX, 0, i32::MAX, 0);
    assert_eq!(s.sub(xy { x: u32::MAX, y: 0 }), rect(i32::MIN, 0, i32::MIN, 0));
}
