use vstd::prelude::*;

use vstd::arithmetic::div_mod::{lemma_fundamental_div_mod, lemma_fundamental_div_mod_converse};

verus! {

/// Quotient of `a` by `b` rounded toward zero, as integer division does.
pub open spec fn trunc_div(a: int, b: int) -> int {
    if a == 0 {
        0
    } else if a > 0 && b > 0 {
        a / b
    } else if a < 0 && b < 0 {
        (-a) / (-b)
    } else if a < 0 {
        -((-a) / b)
    } else {
        -(a / (-b))
    }
}

/// Per-component minimum and maximum, kept apart from a total order: a vector
/// has a natural per-axis minimum and maximum without one order on the whole value.
pub trait ComponentWiseMinMax: Sized {
    /// Every component of `self` is at most the matching component of `other`.
    spec fn le_cw(self, other: Self) -> bool;

    spec fn min_cw(self, other: Self) -> Self;

    spec fn max_cw(self, other: Self) -> Self;

    /// `le_cw` is a partial order.
    proof fn lemma_partial_order(a: Self, b: Self, c: Self)
        ensures
            a.le_cw(a),
            a.le_cw(b) && b.le_cw(a) ==> a == b,
            a.le_cw(b) && b.le_cw(c) ==> a.le_cw(c),
    ;

    /// `min_cw` is the greatest lower bound and `max_cw` the least upper bound.
    proof fn lemma_bounds(a: Self, b: Self, c: Self)
        ensures
            a.min_cw(b).le_cw(a),
            a.min_cw(b).le_cw(b),
            c.le_cw(a) && c.le_cw(b) ==> c.le_cw(a.min_cw(b)),
            a.le_cw(a.max_cw(b)),
            b.le_cw(a.max_cw(b)),
            a.le_cw(c) && b.le_cw(c) ==> a.max_cw(b).le_cw(c),
    ;

    fn component_wise_min(self, other: Self) -> (r: Self)
        ensures
            r == self.min_cw(other),
    ;

    fn component_wise_max(self, other: Self) -> (r: Self)
        ensures
            r == self.max_cw(other),
    ;

    /// Equality of the whole value.
    fn equals(&self, other: &Self) -> (r: bool)
        ensures
            r == (*self == *other),
    ;
}

/// Values with an exact, range-checked addition and subtraction.
pub trait Additive: Sized + Copy {
    /// `self + other` is representable.
    spec fn add_ok(self, other: Self) -> bool;

    spec fn add_spec(self, other: Self) -> Self;

    /// `self - other` is representable.
    spec fn sub_ok(self, other: Self) -> bool;

    spec fn sub_spec(self, other: Self) -> Self;

    /// Adding `b` and then taking `b` away again gives back `a`.
    proof fn lemma_add_sub(a: Self, b: Self)
        requires
            a.add_ok(b),
        ensures
            a.add_spec(b).sub_ok(b),
            a.add_spec(b).sub_spec(b) == a,
    ;

    fn add(self, other: Self) -> (r: Self)
        requires
            self.add_ok(other),
        ensures
            r == self.add_spec(other),
    ;

    fn sub(self, other: Self) -> (r: Self)
        requires
            self.sub_ok(other),
        ensures
            r == self.sub_spec(other),
    ;
}

/// A vector element: a machine integer whose value is the integer `val()`,
/// with exact arithmetic on the values that its range holds.
pub trait Scalar: Additive + ComponentWiseMinMax {
    spec fn val(self) -> int;

    /// `v` lies in the type's range.
    spec fn fits(v: int) -> bool;

    /// The value determines the element, lies in range, and the additive and
    /// ordering operations agree with the integers.
    proof fn lemma_scalar(a: Self, b: Self)
        ensures
            Self::fits(a.val()),
            a.val() == b.val() ==> a == b,
            a.add_ok(b) == Self::fits(a.val() + b.val()),
            a.add_ok(b) ==> a.add_spec(b).val() == a.val() + b.val(),
            a.sub_ok(b) == Self::fits(a.val() - b.val()),
            a.sub_ok(b) ==> a.sub_spec(b).val() == a.val() - b.val(),
            a.le_cw(b) == (a.val() <= b.val()),
            a.min_cw(b).val() == if a.val() <= b.val() { a.val() } else { b.val() },
            a.max_cw(b).val() == if a.val() >= b.val() { a.val() } else { b.val() },
            Self::fits(0),
    ;

    fn zero() -> (r: Self)
        ensures
            r.val() == 0,
    ;

    fn mul(self, other: Self) -> (r: Self)
        requires
            Self::fits(self.val() * other.val()),
        ensures
            r.val() == self.val() * other.val(),
    ;

    /// Division rounded toward zero.
    fn div(self, other: Self) -> (r: Self)
        requires
            other.val() != 0,
            Self::fits(trunc_div(self.val(), other.val())),
        ensures
            r.val() == trunc_div(self.val(), other.val()),
    ;

    fn neg(self) -> (r: Self)
        requires
            Self::fits(-self.val()),
        ensures
            r.val() == -self.val(),
    ;

    /// The element of value `v`, if `v` lies in range.
    fn try_from_i128(v: i128) -> (r: Option<Self>)
        ensures
            r.is_some() == Self::fits(v as int),
            r.is_some() ==> r.unwrap().val() == v,
    ;

    fn to_i128(self) -> (r: i128)
        ensures
            r == self.val(),
    ;
}

impl ComponentWiseMinMax for u8 {
    open spec fn le_cw(self, other: Self) -> bool {
        self <= other
    }

    open spec fn min_cw(self, other: Self) -> Self {
        if self <= other { self } else { other }
    }

    open spec fn max_cw(self, other: Self) -> Self {
        if self >= other { self } else { other }
    }

    proof fn lemma_partial_order(a: Self, b: Self, c: Self) {
    }

    proof fn lemma_bounds(a: Self, b: Self, c: Self) {
    }

    fn component_wise_min(self, other: Self) -> (r: Self) {
        if self <= other { self } else { other }
    }

    fn component_wise_max(self, other: Self) -> (r: Self) {
        if self >= other { self } else { other }
    }

    fn equals(&self, other: &Self) -> (r: bool) {
        *self == *other
    }
}

impl Additive for u8 {
    open spec fn add_ok(self, other: Self) -> bool {
        u8::MIN <= self + other <= u8::MAX
    }

    open spec fn add_spec(self, other: Self) -> Self {
        (self + other) as u8
    }

    open spec fn sub_ok(self, other: Self) -> bool {
        u8::MIN <= self - other <= u8::MAX
    }

    open spec fn sub_spec(self, other: Self) -> Self {
        (self - other) as u8
    }

    proof fn lemma_add_sub(a: Self, b: Self) {
    }

    fn add(self, other: Self) -> (r: Self) {
        self + other
    }

    fn sub(self, other: Self) -> (r: Self) {
        self - other
    }
}

impl Scalar for u8 {
    open spec fn val(self) -> int {
        self as int
    }

    open spec fn fits(v: int) -> bool {
        u8::MIN <= v <= u8::MAX
    }

    proof fn lemma_scalar(a: Self, b: Self) {
    }

    fn zero() -> (r: Self) {
        0
    }

    fn mul(self, other: Self) -> (r: Self) {
        self * other
    }

    fn div(self, other: Self) -> (r: Self) {
        match self.checked_div(other) {
            Some(q) => q,
            None => {
                proof {
                    assert(false);
                }
                0
            },
        }
    }

    fn neg(self) -> (r: Self) {
        0 - self
    }

    fn try_from_i128(v: i128) -> (r: Option<Self>) {
        if u8::MIN as i128 <= v && v <= u8::MAX as i128 {
            Some(v as u8)
        } else {
            None
        }
    }

    fn to_i128(self) -> (r: i128) {
        self as i128
    }
}

impl ComponentWiseMinMax for i8 {
    open spec fn le_cw(self, other: Self) -> bool {
        self <= other
    }

    open spec fn min_cw(self, other: Self) -> Self {
        if self <= other { self } else { other }
    }

    open spec fn max_cw(self, other: Self) -> Self {
        if self >= other { self } else { other }
    }

    proof fn lemma_partial_order(a: Self, b: Self, c: Self) {
    }

    proof fn lemma_bounds(a: Self, b: Self, c: Self) {
    }

    fn component_wise_min(self, other: Self) -> (r: Self) {
        if self <= other { self } else { other }
    }

    fn component_wise_max(self, other: Self) -> (r: Self) {
        if self >= other { self } else { other }
    }

    fn equals(&self, other: &Self) -> (r: bool) {
        *self == *other
    }
}

impl Additive for i8 {
    open spec fn add_ok(self, other: Self) -> bool {
        i8::MIN <= self + other <= i8::MAX
    }

    open spec fn add_spec(self, other: Self) -> Self {
        (self + other) as i8
    }

    open spec fn sub_ok(self, other: Self) -> bool {
        i8::MIN <= self - other <= i8::MAX
    }

    open spec fn sub_spec(self, other: Self) -> Self {
        (self - other) as i8
    }

    proof fn lemma_add_sub(a: Self, b: Self) {
    }

    fn add(self, other: Self) -> (r: Self) {
        self + other
    }

    fn sub(self, other: Self) -> (r: Self) {
        self - other
    }
}

impl Scalar for i8 {
    open spec fn val(self) -> int {
        self as int
    }

    open spec fn fits(v: int) -> bool {
        i8::MIN <= v <= i8::MAX
    }

    proof fn lemma_scalar(a: Self, b: Self) {
    }

    fn zero() -> (r: Self) {
        0
    }

    fn mul(self, other: Self) -> (r: Self) {
        self * other
    }

    fn div(self, other: Self) -> (r: Self) {
        match self.checked_div(other) {
            Some(q) => q,
            None => {
                proof {
                    assert(false);
                }
                0
            },
        }
    }

    fn neg(self) -> (r: Self) {
        0 - self
    }

    fn try_from_i128(v: i128) -> (r: Option<Self>) {
        if i8::MIN as i128 <= v && v <= i8::MAX as i128 {
            Some(v as i8)
        } else {
            None
        }
    }

    fn to_i128(self) -> (r: i128) {
        self as i128
    }
}

impl ComponentWiseMinMax for u16 {
    open spec fn le_cw(self, other: Self) -> bool {
        self <= other
    }

    open spec fn min_cw(self, other: Self) -> Self {
        if self <= other { self } else { other }
    }

    open spec fn max_cw(self, other: Self) -> Self {
        if self >= other { self } else { other }
    }

    proof fn lemma_partial_order(a: Self, b: Self, c: Self) {
    }

    proof fn lemma_bounds(a: Self, b: Self, c: Self) {
    }

    fn component_wise_min(self, other: Self) -> (r: Self) {
        if self <= other { self } else { other }
    }

    fn component_wise_max(self, other: Self) -> (r: Self) {
        if self >= other { self } else { other }
    }

    fn equals(&self, other: &Self) -> (r: bool) {
        *self == *other
    }
}

impl Additive for u16 {
    open spec fn add_ok(self, other: Self) -> bool {
        u16::MIN <= self + other <= u16::MAX
    }

    open spec fn add_spec(self, other: Self) -> Self {
        (self + other) as u16
    }

    open spec fn sub_ok(self, other: Self) -> bool {
        u16::MIN <= self - other <= u16::MAX
    }

    open spec fn sub_spec(self, other: Self) -> Self {
        (self - other) as u16
    }

    proof fn lemma_add_sub(a: Self, b: Self) {
    }

    fn add(self, other: Self) -> (r: Self) {
        self + other
    }

    fn sub(self, other: Self) -> (r: Self) {
        self - other
    }
}

impl Scalar for u16 {
    open spec fn val(self) -> int {
        self as int
    }

    open spec fn fits(v: int) -> bool {
        u16::MIN <= v <= u16::MAX
    }

    proof fn lemma_scalar(a: Self, b: Self) {
    }

    fn zero() -> (r: Self) {
        0
    }

    fn mul(self, other: Self) -> (r: Self) {
        self * other
    }

    fn div(self, other: Self) -> (r: Self) {
        match self.checked_div(other) {
            Some(q) => q,
            None => {
                proof {
                    assert(false);
                }
                0
            },
        }
    }

    fn neg(self) -> (r: Self) {
        0 - self
    }

    fn try_from_i128(v: i128) -> (r: Option<Self>) {
        if u16::MIN as i128 <= v && v <= u16::MAX as i128 {
            Some(v as u16)
        } else {
            None
        }
    }

    fn to_i128(self) -> (r: i128) {
        self as i128
    }
}

impl ComponentWiseMinMax for i16 {
    open spec fn le_cw(self, other: Self) -> bool {
        self <= other
    }

    open spec fn min_cw(self, other: Self) -> Self {
        if self <= other { self } else { other }
    }

    open spec fn max_cw(self, other: Self) -> Self {
        if self >= other { self } else { other }
    }

    proof fn lemma_partial_order(a: Self, b: Self, c: Self) {
    }

    proof fn lemma_bounds(a: Self, b: Self, c: Self) {
    }

    fn component_wise_min(self, other: Self) -> (r: Self) {
        if self <= other { self } else { other }
    }

    fn component_wise_max(self, other: Self) -> (r: Self) {
        if self >= other { self } else { other }
    }

    fn equals(&self, other: &Self) -> (r: bool) {
        *self == *other
    }
}

impl Additive for i16 {
    open spec fn add_ok(self, other: Self) -> bool {
        i16::MIN <= self + other <= i16::MAX
    }

    open spec fn add_spec(self, other: Self) -> Self {
        (self + other) as i16
    }

    open spec fn sub_ok(self, other: Self) -> bool {
        i16::MIN <= self - other <= i16::MAX
    }

    open spec fn sub_spec(self, other: Self) -> Self {
        (self - other) as i16
    }

    proof fn lemma_add_sub(a: Self, b: Self) {
    }

    fn add(self, other: Self) -> (r: Self) {
        self + other
    }

    fn sub(self, other: Self) -> (r: Self) {
        self - other
    }
}

impl Scalar for i16 {
    open spec fn val(self) -> int {
        self as int
    }

    open spec fn fits(v: int) -> bool {
        i16::MIN <= v <= i16::MAX
    }

    proof fn lemma_scalar(a: Self, b: Self) {
    }

    fn zero() -> (r: Self) {
        0
    }

    fn mul(self, other: Self) -> (r: Self) {
        self * other
    }

    fn div(self, other: Self) -> (r: Self) {
        match self.checked_div(other) {
            Some(q) => q,
            None => {
                proof {
                    assert(false);
                }
                0
            },
        }
    }

    fn neg(self) -> (r: Self) {
        0 - self
    }

    fn try_from_i128(v: i128) -> (r: Option<Self>) {
        if i16::MIN as i128 <= v && v <= i16::MAX as i128 {
            Some(v as i16)
        } else {
            None
        }
    }

    fn to_i128(self) -> (r: i128) {
        self as i128
    }
}

impl ComponentWiseMinMax for u32 {
    open spec fn le_cw(self, other: Self) -> bool {
        self <= other
    }

    open spec fn min_cw(self, other: Self) -> Self {
        if self <= other { self } else { other }
    }

    open spec fn max_cw(self, other: Self) -> Self {
        if self >= other { self } else { other }
    }

    proof fn lemma_partial_order(a: Self, b: Self, c: Self) {
    }

    proof fn lemma_bounds(a: Self, b: Self, c: Self) {
    }

    fn component_wise_min(self, other: Self) -> (r: Self) {
        if self <= other { self } else { other }
    }

    fn component_wise_max(self, other: Self) -> (r: Self) {
        if self >= other { self } else { other }
    }

    fn equals(&self, other: &Self) -> (r: bool) {
        *self == *other
    }
}

impl Additive for u32 {
    open spec fn add_ok(self, other: Self) -> bool {
        u32::MIN <= self + other <= u32::MAX
    }

    open spec fn add_spec(self, other: Self) -> Self {
        (self + other) as u32
    }

    open spec fn sub_ok(self, other: Self) -> bool {
        u32::MIN <= self - other <= u32::MAX
    }

    open spec fn sub_spec(self, other: Self) -> Self {
        (self - other) as u32
    }

    proof fn lemma_add_sub(a: Self, b: Self) {
    }

    fn add(self, other: Self) -> (r: Self) {
        self + other
    }

    fn sub(self, other: Self) -> (r: Self) {
        self - other
    }
}

impl Scalar for u32 {
    open spec fn val(self) -> int {
        self as int
    }

    open spec fn fits(v: int) -> bool {
        u32::MIN <= v <= u32::MAX
    }

    proof fn lemma_scalar(a: Self, b: Self) {
    }

    fn zero() -> (r: Self) {
        0
    }

    fn mul(self, other: Self) -> (r: Self) {
        self * other
    }

    fn div(self, other: Self) -> (r: Self) {
        match self.checked_div(other) {
            Some(q) => q,
            None => {
                proof {
                    assert(false);
                }
                0
            },
        }
    }

    fn neg(self) -> (r: Self) {
        0 - self
    }

    fn try_from_i128(v: i128) -> (r: Option<Self>) {
        if u32::MIN as i128 <= v && v <= u32::MAX as i128 {
            Some(v as u32)
        } else {
            None
        }
    }

    fn to_i128(self) -> (r: i128) {
        self as i128
    }
}

impl ComponentWiseMinMax for i32 {
    open spec fn le_cw(self, other: Self) -> bool {
        self <= other
    }

    open spec fn min_cw(self, other: Self) -> Self {
        if self <= other { self } else { other }
    }

    open spec fn max_cw(self, other: Self) -> Self {
        if self >= other { self } else { other }
    }

    proof fn lemma_partial_order(a: Self, b: Self, c: Self) {
    }

    proof fn lemma_bounds(a: Self, b: Self, c: Self) {
    }

    fn component_wise_min(self, other: Self) -> (r: Self) {
        if self <= other { self } else { other }
    }

    fn component_wise_max(self, other: Self) -> (r: Self) {
        if self >= other { self } else { other }
    }

    fn equals(&self, other: &Self) -> (r: bool) {
        *self == *other
    }
}

impl Additive for i32 {
    open spec fn add_ok(self, other: Self) -> bool {
        i32::MIN <= self + other <= i32::MAX
    }

    open spec fn add_spec(self, other: Self) -> Self {
        (self + other) as i32
    }

    open spec fn sub_ok(self, other: Self) -> bool {
        i32::MIN <= self - other <= i32::MAX
    }

    open spec fn sub_spec(self, other: Self) -> Self {
        (self - other) as i32
    }

    proof fn lemma_add_sub(a: Self, b: Self) {
    }

    fn add(self, other: Self) -> (r: Self) {
        self + other
    }

    fn sub(self, other: Self) -> (r: Self) {
        self - other
    }
}

impl Scalar for i32 {
    open spec fn val(self) -> int {
        self as int
    }

    open spec fn fits(v: int) -> bool {
        i32::MIN <= v <= i32::MAX
    }

    proof fn lemma_scalar(a: Self, b: Self) {
    }

    fn zero() -> (r: Self) {
        0
    }

    fn mul(self, other: Self) -> (r: Self) {
        self * other
    }

    fn div(self, other: Self) -> (r: Self) {
        match self.checked_div(other) {
            Some(q) => q,
            None => {
                proof {
                    assert(false);
                }
                0
            },
        }
    }

    fn neg(self) -> (r: Self) {
        0 - self
    }

    fn try_from_i128(v: i128) -> (r: Option<Self>) {
        if i32::MIN as i128 <= v && v <= i32::MAX as i128 {
            Some(v as i32)
        } else {
            None
        }
    }

    fn to_i128(self) -> (r: i128) {
        self as i128
    }
}

impl ComponentWiseMinMax for u64 {
    open spec fn le_cw(self, other: Self) -> bool {
        self <= other
    }

    open spec fn min_cw(self, other: Self) -> Self {
        if self <= other { self } else { other }
    }

    open spec fn max_cw(self, other: Self) -> Self {
        if self >= other { self } else { other }
    }

    proof fn lemma_partial_order(a: Self, b: Self, c: Self) {
    }

    proof fn lemma_bounds(a: Self, b: Self, c: Self) {
    }

    fn component_wise_min(self, other: Self) -> (r: Self) {
        if self <= other { self } else { other }
    }

    fn component_wise_max(self, other: Self) -> (r: Self) {
        if self >= other { self } else { other }
    }

    fn equals(&self, other: &Self) -> (r: bool) {
        *self == *other
    }
}

impl Additive for u64 {
    open spec fn add_ok(self, other: Self) -> bool {
        u64::MIN <= self + other <= u64::MAX
    }

    open spec fn add_spec(self, other: Self) -> Self {
        (self + other) as u64
    }

    open spec fn sub_ok(self, other: Self) -> bool {
        u64::MIN <= self - other <= u64::MAX
    }

    open spec fn sub_spec(self, other: Self) -> Self {
        (self - other) as u64
    }

    proof fn lemma_add_sub(a: Self, b: Self) {
    }

    fn add(self, other: Self) -> (r: Self) {
        self + other
    }

    fn sub(self, other: Self) -> (r: Self) {
        self - other
    }
}

impl Scalar for u64 {
    open spec fn val(self) -> int {
        self as int
    }

    open spec fn fits(v: int) -> bool {
        u64::MIN <= v <= u64::MAX
    }

    proof fn lemma_scalar(a: Self, b: Self) {
    }

    fn zero() -> (r: Self) {
        0
    }

    fn mul(self, other: Self) -> (r: Self) {
        self * other
    }

    fn div(self, other: Self) -> (r: Self) {
        match self.checked_div(other) {
            Some(q) => q,
            None => {
                proof {
                    assert(false);
                }
                0
            },
        }
    }

    fn neg(self) -> (r: Self) {
        0 - self
    }

    fn try_from_i128(v: i128) -> (r: Option<Self>) {
        if u64::MIN as i128 <= v && v <= u64::MAX as i128 {
            Some(v as u64)
        } else {
            None
        }
    }

    fn to_i128(self) -> (r: i128) {
        self as i128
    }
}

impl ComponentWiseMinMax for i64 {
    open spec fn le_cw(self, other: Self) -> bool {
        self <= other
    }

    open spec fn min_cw(self, other: Self) -> Self {
        if self <= other { self } else { other }
    }

    open spec fn max_cw(self, other: Self) -> Self {
        if self >= other { self } else { other }
    }

    proof fn lemma_partial_order(a: Self, b: Self, c: Self) {
    }

    proof fn lemma_bounds(a: Self, b: Self, c: Self) {
    }

    fn component_wise_min(self, other: Self) -> (r: Self) {
        if self <= other { self } else { other }
    }

    fn component_wise_max(self, other: Self) -> (r: Self) {
        if self >= other { self } else { other }
    }

    fn equals(&self, other: &Self) -> (r: bool) {
        *self == *other
    }
}

impl Additive for i64 {
    open spec fn add_ok(self, other: Self) -> bool {
        i64::MIN <= self + other <= i64::MAX
    }

    open spec fn add_spec(self, other: Self) -> Self {
        (self + other) as i64
    }

    open spec fn sub_ok(self, other: Self) -> bool {
        i64::MIN <= self - other <= i64::MAX
    }

    open spec fn sub_spec(self, other: Self) -> Self {
        (self - other) as i64
    }

    proof fn lemma_add_sub(a: Self, b: Self) {
    }

    fn add(self, other: Self) -> (r: Self) {
        self + other
    }

    fn sub(self, other: Self) -> (r: Self) {
        self - other
    }
}

impl Scalar for i64 {
    open spec fn val(self) -> int {
        self as int
    }

    open spec fn fits(v: int) -> bool {
        i64::MIN <= v <= i64::MAX
    }

    proof fn lemma_scalar(a: Self, b: Self) {
    }

    fn zero() -> (r: Self) {
        0
    }

    fn mul(self, other: Self) -> (r: Self) {
        self * other
    }

    fn div(self, other: Self) -> (r: Self) {
        match self.checked_div(other) {
            Some(q) => q,
            None => {
                proof {
                    assert(false);
                }
                0
            },
        }
    }

    fn neg(self) -> (r: Self) {
        0 - self
    }

    fn try_from_i128(v: i128) -> (r: Option<Self>) {
        if i64::MIN as i128 <= v && v <= i64::MAX as i128 {
            Some(v as i64)
        } else {
            None
        }
    }

    fn to_i128(self) -> (r: i128) {
        self as i128
    }
}

/// `a / d` rounded down, for a positive `d`.
pub open spec fn floor_div(a: int, d: int) -> int {
    a / d
}

/// `a / d` rounded up, for a positive `d`.
pub open spec fn ceil_div(a: int, d: int) -> int {
    -((-a) / d)
}

/// The scale factor `num / div`, applied to integers with an explicit rounding.
#[derive(Clone, Copy, Debug, PartialEq, Eq)]
pub struct Ratio {
    pub num: u32,
    pub div: u32,
}

impl Ratio {
    /// `x * num / div`, rounded up.
    pub fn ceil(&self, x: u32) -> (r: u32)
        requires
            self.div > 0,
            ceil_div(x * self.num, self.div as int) <= u32::MAX,
        ensures
            r == ceil_div(x * self.num, self.div as int),
    {
        assert(x * self.num <= u32::MAX * u32::MAX) by (nonlinear_arith)
            requires
                x <= u32::MAX,
                self.num <= u32::MAX,
        ;
        let p: u64 = (x as u64) * (self.num as u64);
        let d: u64 = self.div as u64;
        let q: u64 = p / d;
        let m: u64 = p % d;
        proof {
            lemma_fundamental_div_mod(p as int, d as int);
            let (pi, di, qi, mi) = (p as int, d as int, q as int, m as int);
            if m == 0 {
                assert(-pi == (-qi) * di + 0) by (nonlinear_arith)
                    requires
                        pi == di * qi + mi,
                        mi == 0,
                ;
                lemma_fundamental_div_mod_converse(-pi, di, -qi, 0);
            } else {
                assert(-pi == (-qi - 1) * di + (di - mi)) by (nonlinear_arith)
                    requires
                        pi == di * qi + mi,
                ;
                lemma_fundamental_div_mod_converse(-pi, di, -qi - 1, di - mi);
            }
        }
        if m == 0 {
            q as u32
        } else {
            (q + 1) as u32
        }
    }

    /// `x * num / div`, rounded down.
    pub fn ifloor(&self, x: i32) -> (r: i32)
        requires
            self.div > 0,
            i32::MIN <= floor_div(x * self.num, self.div as int) <= i32::MAX,
        ensures
            r == floor_div(x * self.num, self.div as int),
    {
        assert(i32::MIN * u32::MAX <= x * self.num <= i32::MAX * u32::MAX) by (nonlinear_arith)
            requires
                i32::MIN <= x <= i32::MAX,
                0 <= self.num <= u32::MAX,
        ;
        let p = (x as i64) * (self.num as i64);
        p.checked_div_euclid(self.div as i64).unwrap() as i32
    }

    /// `x * num / div`, rounded up.
    pub fn iceil(&self, x: i32) -> (r: i32)
        requires
            self.div > 0,
            i32::MIN <= ceil_div(x * self.num, self.div as int) <= i32::MAX,
        ensures
            r == ceil_div(x * self.num, self.div as int),
    {
        assert(i32::MIN * u32::MAX <= x * self.num <= i32::MAX * u32::MAX) by (nonlinear_arith)
            requires
                i32::MIN <= x <= i32::MAX,
                0 <= self.num <= u32::MAX,
        ;
        let p = (x as i64) * (self.num as i64);
        let q = (0 - p).checked_div_euclid(self.div as i64).unwrap();
        (0 - q) as i32
    }
}

pub fn component_wise_min<T: ComponentWiseMinMax>(a: T, b: T) -> (r: T)
    ensures
        r == a.min_cw(b),
{
    a.component_wise_min(b)
}

pub fn component_wise_max<T: ComponentWiseMinMax>(a: T, b: T) -> (r: T)
    ensures
        r == a.max_cw(b),
{
    a.component_wise_max(b)
}

/// `a <= b` exactly when the minimum of the two is `a`, and exactly when their
/// maximum is `b`, in either argument order.
pub proof fn lemma_le_cw<T: ComponentWiseMinMax>(a: T, b: T)
    ensures
        a.le_cw(b) == (a.min_cw(b) == a),
        a.le_cw(b) == (b.min_cw(a) == a),
        a.le_cw(b) == (a.max_cw(b) == b),
        a.le_cw(b) == (b.max_cw(a) == b),
{
    T::lemma_bounds(a, b, a);
    T::lemma_bounds(b, a, a);
    T::lemma_bounds(a, b, b);
    T::lemma_bounds(b, a, b);
    T::lemma_partial_order(a, b, a);
    T::lemma_partial_order(a.min_cw(b), a, a);
    T::lemma_partial_order(b.min_cw(a), a, a);
    T::lemma_partial_order(a.max_cw(b), b, b);
    T::lemma_partial_order(b.max_cw(a), b, b);
    T::lemma_partial_order(b, b, b);
}

/// The component-wise minimum is commutative.
pub proof fn lemma_min_commutative<T: ComponentWiseMinMax>(a: T, b: T)
    ensures
        a.min_cw(b) == b.min_cw(a),
{
    T::lemma_bounds(a, b, b.min_cw(a));
    T::lemma_bounds(b, a, a.min_cw(b));
    T::lemma_partial_order(a.min_cw(b), b.min_cw(a), a);
}

/// The component-wise maximum is commutative.
pub proof fn lemma_max_commutative<T: ComponentWiseMinMax>(a: T, b: T)
    ensures
        a.max_cw(b) == b.max_cw(a),
{
    T::lemma_bounds(a, b, b.max_cw(a));
    T::lemma_bounds(b, a, a.max_cw(b));
    T::lemma_partial_order(a.max_cw(b), b.max_cw(a), a);
}

/// The component-wise minimum is associative.
pub proof fn lemma_min_associative<T: ComponentWiseMinMax>(a: T, b: T, c: T)
    ensures
        a.min_cw(b).min_cw(c) == a.min_cw(b.min_cw(c)),
{
    let l = a.min_cw(b).min_cw(c);
    let r = a.min_cw(b.min_cw(c));
    T::lemma_bounds(a, b, l);
    T::lemma_bounds(a.min_cw(b), c, l);
    T::lemma_bounds(b, c, l);
    T::lemma_bounds(a, b.min_cw(c), l);
    T::lemma_partial_order(l, a.min_cw(b), a);
    T::lemma_partial_order(l, a.min_cw(b), b);
    T::lemma_bounds(b, c, r);
    T::lemma_bounds(a, b.min_cw(c), r);
    T::lemma_bounds(a, b, r);
    T::lemma_bounds(a.min_cw(b), c, r);
    T::lemma_partial_order(r, b.min_cw(c), b);
    T::lemma_partial_order(r, b.min_cw(c), c);
    T::lemma_partial_order(l, r, l);
}

/// The component-wise maximum is associative.
pub proof fn lemma_max_associative<T: ComponentWiseMinMax>(a: T, b: T, c: T)
    ensures
        a.max_cw(b).max_cw(c) == a.max_cw(b.max_cw(c)),
{
    let l = a.max_cw(b).max_cw(c);
    let r = a.max_cw(b.max_cw(c));
    T::lemma_bounds(a, b, l);
    T::lemma_bounds(a.max_cw(b), c, l);
    T::lemma_bounds(b, c, l);
    T::lemma_bounds(a, b.max_cw(c), l);
    T::lemma_partial_order(a, a.max_cw(b), l);
    T::lemma_partial_order(b, a.max_cw(b), l);
    T::lemma_bounds(b, c, r);
    T::lemma_bounds(a, b.max_cw(c), r);
    T::lemma_bounds(a, b, r);
    T::lemma_bounds(a.max_cw(b), c, r);
    T::lemma_partial_order(b, b.max_cw(c), r);
    T::lemma_partial_order(c, b.max_cw(c), r);
    T::lemma_partial_order(l, r, l);
}

} // verus!
