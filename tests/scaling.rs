use vector::{ceil, iceil, ifloor, scale_rect, xy, MinMax, Ratio, Rect};

#[test]
fn ratio_rounds_as_asked() {
    let r = Ratio { num: 3, div: 2 };
    assert_eq!(r.ceil(5), 8);
    assert_eq!(r.ceil(4), 6);
    assert_eq!(r.ifloor(5), 7);
    assert_eq!(r.ifloor(-5), -8);
    assert_eq!(r.iceil(-5), -7);
    assert_eq!(r.iceil(5), 8);
    assert_eq!(r.iceil(-4), -6);
}

#[test]
fn ratio_at_the_ends_of_the_range() {
    let one = Ratio { num: 1, div: 1 };
    assert_eq!(one.ceil(u32::MAX), u32::MAX);
    assert_eq!(one.ifloor(i32::MIN), i32::MIN);
    assert_eq!(one.iceil(i32::MAX), i32::MAX);
    let half = Ratio { num: 1, div: 2 };
    assert_eq!(half.ceil(u32::MAX), 2147483648);
    assert_eq!(Ratio { num: u32::MAX, div: u32::MAX }.ceil(u32::MAX), u32::MAX);
}

#[test]
fn scaling_vectors() {
    let r = Ratio { num: 3, div: 2 };
    assert_eq!(ceil(r, xy { x: 5, y: 4 }), xy { x: 8, y: 6 });
    assert_eq!(ifloor(r, xy { x: -5, y: 3 }), xy { x: -8, y: 4 });
    assert_eq!(iceil(r, xy { x: -5, y: 3 }), xy { x: -7, y: 5 });
}

#[test]
fn scaling_a_rectangle_grows_it_outward() {
    let r: Rect = MinMax { min: xy { x: -3, y: 1 }, max: xy { x: 3, y: 5 } };
    let s = scale_rect(Ratio { num: 1, div: 2 }, r);
    assert_eq!(s, MinMax { min: xy { x: -2, y: 0 }, max: xy { x: 2, y: 3 } });
}

#[test]
fn a_box_as_a_half_open_range() {
    let b = MinMax { min: 2u32, max: 6 };
    assert_eq!(b.range(), 2..6);
    assert_eq!(b.range().count(), 4);
}
