use vstd::prelude::*;

use core::cmp::Ordering;

use crate::minmax::MinMax;
use crate::reduce::Components;
use crate::scalar::{ceil_div, floor_div, trunc_div, Additive, ComponentWiseMinMax, Ratio, Scalar};

verus! {

/// A vector of two components: `x`, `y`, always in that order.
#[allow(non_camel_case_types)]
#[derive(Clone, Copy, Debug, PartialEq, Eq, Hash)]
pub struct xy<T> {
    pub x: T,
    pub y: T,
}

/// Names one component of an `xy`.
#[derive(Clone, Copy, Debug, PartialEq, Eq)]
pub enum Component {
    X,
    Y,
}

impl Component {
    /// Every component, in order.
    pub fn enumerate() -> (r: [Component; 2])
        ensures
            r@ == seq![Component::X, Component::Y],
    {
        [Component::X, Component::Y]
    }
}

impl<T> xy<T> {
    /// The component that `c` names.
    pub open spec fn comp(self, c: Component) -> T {
        match c {
            Component::X => self.x,
            Component::Y => self.y,
        }
    }

    /// Every component, in order.
    pub fn enumerate() -> (r: [Component; 2])
        ensures
            r@ == seq![Component::X, Component::Y],
    {
        Component::enumerate()
    }

    /// The component that `c` names, by reference.
    pub fn index(&self, c: Component) -> (r: &T)
        ensures
            *r == self.comp(c),
    {
        match c {
            Component::X => &self.x,
            Component::Y => &self.y,
        }
    }

    /// The components as an array, in order.
    pub fn to_array(self) -> (r: [T; 2])
        ensures
            r@ == seq![self.x, self.y],
    {
        let xy { x, y } = self;
        [x, y]
    }

    /// The vector whose components are the tuple's fields, in order.
    pub fn from_tuple(t: (T, T)) -> (r: Self)
        ensures
            r.x == t.0,
            r.y == t.1,
    {
        let (x, y) = t;
        xy { x, y }
    }

    /// The components as a tuple, in order.
    pub fn to_tuple(self) -> (r: (T, T))
        ensures
            r == (self.x, self.y),
    {
        let xy { x, y } = self;
        (x, y)
    }

    /// Applies `f` to each component.
    pub fn map<U, F: Fn(T) -> U>(self, f: F) -> (r: xy<U>)
        requires
            f.requires((self.x,)),
            f.requires((self.y,)),
        ensures
            f.ensures((self.x,), r.x),
            f.ensures((self.y,), r.y),
    {
        let xy { x, y } = self;
        xy { x: f(x), y: f(y) }
    }

    /// Pairs the components of `self` and `b` that have the same name.
    pub fn zip<B>(self, b: xy<B>) -> (r: xy<(T, B)>)
        ensures
            r.x == (self.x, b.x),
            r.y == (self.y, b.y),
    {
        let xy { x, y } = self;
        let xy { x: bx, y: by } = b;
        xy { x: (x, bx), y: (y, by) }
    }
}

impl<T: Copy> xy<T> {
    /// The vector whose components are the array's elements, in order.
    pub fn from_array(a: [T; 2]) -> (r: Self)
        ensures
            r.x == a@[0],
            r.y == a@[1],
    {
        xy { x: a[0], y: a[1] }
    }

    /// Every component set to `v`.
    pub fn splat(v: T) -> (r: Self)
        ensures
            r.x == v,
            r.y == v,
    {
        xy { x: v, y: v }
    }
}

impl<T> xy<Option<T>> {
    /// All the components if each is present, else `None`.
    pub fn transpose(self) -> (r: Option<xy<T>>)
        ensures
            r is Some <==> self.x is Some && self.y is Some,
            r matches Some(v) ==> self.x == Some(v.x) && self.y == Some(v.y),
    {
        match self.to_tuple() {
            (Some(x), Some(y)) => Some(xy { x, y }),
            _ => None,
        }
    }
}

impl<T> Components<T> for xy<T> {
    open spec fn comps(self) -> Seq<T> {
        seq![self.x, self.y]
    }

    open spec fn dim() -> nat {
        2
    }

    fn len(&self) -> (r: usize) {
        2
    }

    fn component(&self, i: usize) -> (r: &T) {
        if i == 0 {
            &self.x
        } else {
            &self.y
        }
    }
}

impl<T: ComponentWiseMinMax> ComponentWiseMinMax for xy<T> {
    open spec fn le_cw(self, other: Self) -> bool {
        self.x.le_cw(other.x) && self.y.le_cw(other.y)
    }

    open spec fn min_cw(self, other: Self) -> Self {
        xy { x: self.x.min_cw(other.x), y: self.y.min_cw(other.y) }
    }

    open spec fn max_cw(self, other: Self) -> Self {
        xy { x: self.x.max_cw(other.x), y: self.y.max_cw(other.y) }
    }

    proof fn lemma_partial_order(a: Self, b: Self, c: Self) {
        T::lemma_partial_order(a.x, b.x, c.x);
        T::lemma_partial_order(a.y, b.y, c.y);
    }

    proof fn lemma_bounds(a: Self, b: Self, c: Self) {
        T::lemma_bounds(a.x, b.x, c.x);
        T::lemma_bounds(a.y, b.y, c.y);
    }

    fn component_wise_min(self, other: Self) -> (r: Self) {
        let xy { x, y } = self;
        let xy { x: ox, y: oy } = other;
        xy { x: x.component_wise_min(ox), y: y.component_wise_min(oy) }
    }

    fn component_wise_max(self, other: Self) -> (r: Self) {
        let xy { x, y } = self;
        let xy { x: ox, y: oy } = other;
        xy { x: x.component_wise_max(ox), y: y.component_wise_max(oy) }
    }

    fn equals(&self, other: &Self) -> (r: bool) {
        self.x.equals(&other.x) && self.y.equals(&other.y)
    }
}

impl<T: Additive> Additive for xy<T> {
    open spec fn add_ok(self, other: Self) -> bool {
        self.x.add_ok(other.x) && self.y.add_ok(other.y)
    }

    open spec fn add_spec(self, other: Self) -> Self {
        xy { x: self.x.add_spec(other.x), y: self.y.add_spec(other.y) }
    }

    open spec fn sub_ok(self, other: Self) -> bool {
        self.x.sub_ok(other.x) && self.y.sub_ok(other.y)
    }

    open spec fn sub_spec(self, other: Self) -> Self {
        xy { x: self.x.sub_spec(other.x), y: self.y.sub_spec(other.y) }
    }

    proof fn lemma_add_sub(a: Self, b: Self) {
        T::lemma_add_sub(a.x, b.x);
        T::lemma_add_sub(a.y, b.y);
    }

    fn add(self, other: Self) -> (r: Self) {
        xy { x: self.x.add(other.x), y: self.y.add(other.y) }
    }

    fn sub(self, other: Self) -> (r: Self) {
        xy { x: self.x.sub(other.x), y: self.y.sub(other.y) }
    }
}

impl<T: Additive> xy<T> {
    /// `self = self + other`.
    pub fn add_assign(&mut self, other: Self)
        requires
            old(self).add_ok(other),
        ensures
            *final(self) == old(self).add_spec(other),
    {
        *self = self.add(other);
    }

    /// `self = self - other`.
    pub fn sub_assign(&mut self, other: Self)
        requires
            old(self).sub_ok(other),
        ensures
            *final(self) == old(self).sub_spec(other),
    {
        *self = self.sub(other);
    }
}

impl<T: Scalar> xy<T> {
    /// The component values, in order.
    pub open spec fn vals(self) -> Seq<int> {
        seq![self.x.val(), self.y.val()]
    }

    /// Some(Equal) when every component is equal, Some(Less) or Some(Greater)
    /// when every component compares so, and None for any mix.
    pub open spec fn order(self, other: Self) -> Option<Ordering> {
        if self.x.val() == other.x.val() && self.y.val() == other.y.val() {
            Some(Ordering::Equal)
        } else if self.x.val() < other.x.val() && self.y.val() < other.y.val() {
            Some(Ordering::Less)
        } else if self.x.val() > other.x.val() && self.y.val() > other.y.val() {
            Some(Ordering::Greater)
        } else {
            None
        }
    }

    /// Every component zero.
    pub fn zero() -> (r: Self)
        ensures
            r.vals() == seq![0int, 0int],
    {
        xy { x: T::zero(), y: T::zero() }
    }

    /// Component-wise product.
    pub fn mul(self, other: Self) -> (r: Self)
        requires
            T::fits(self.x.val() * other.x.val()),
            T::fits(self.y.val() * other.y.val()),
        ensures
            r.x.val() == self.x.val() * other.x.val(),
            r.y.val() == self.y.val() * other.y.val(),
    {
        xy { x: self.x.mul(other.x), y: self.y.mul(other.y) }
    }

    /// Component-wise quotient, rounded toward zero.
    pub fn div(self, other: Self) -> (r: Self)
        requires
            other.x.val() != 0,
            other.y.val() != 0,
            T::fits(trunc_div(self.x.val(), other.x.val())),
            T::fits(trunc_div(self.y.val(), other.y.val())),
        ensures
            r.x.val() == trunc_div(self.x.val(), other.x.val()),
            r.y.val() == trunc_div(self.y.val(), other.y.val()),
    {
        xy { x: self.x.div(other.x), y: self.y.div(other.y) }
    }

    /// Every component negated.
    pub fn neg(self) -> (r: Self)
        requires
            T::fits(-self.x.val()),
            T::fits(-self.y.val()),
        ensures
            r.x.val() == -self.x.val(),
            r.y.val() == -self.y.val(),
    {
        xy { x: self.x.neg(), y: self.y.neg() }
    }

    /// Each component multiplied by the scalar `s`.
    pub fn scale(self, s: T) -> (r: Self)
        requires
            T::fits(s.val() * self.x.val()),
            T::fits(s.val() * self.y.val()),
        ensures
            r.x.val() == s.val() * self.x.val(),
            r.y.val() == s.val() * self.y.val(),
    {
        xy { x: s.mul(self.x), y: s.mul(self.y) }
    }

    /// Each component divided by the scalar `s`, rounded toward zero.
    pub fn div_scalar(self, s: T) -> (r: Self)
        requires
            s.val() != 0,
            T::fits(trunc_div(self.x.val(), s.val())),
            T::fits(trunc_div(self.y.val(), s.val())),
        ensures
            r.x.val() == trunc_div(self.x.val(), s.val()),
            r.y.val() == trunc_div(self.y.val(), s.val()),
    {
        xy { x: self.x.div(s), y: self.y.div(s) }
    }

    /// The scalar `s` divided by each component, rounded toward zero.
    pub fn scalar_div(self, s: T) -> (r: Self)
        requires
            self.x.val() != 0,
            self.y.val() != 0,
            T::fits(trunc_div(s.val(), self.x.val())),
            T::fits(trunc_div(s.val(), self.y.val())),
        ensures
            r.x.val() == trunc_div(s.val(), self.x.val()),
            r.y.val() == trunc_div(s.val(), self.y.val()),
    {
        xy { x: s.div(self.x), y: s.div(self.y) }
    }

    /// `self = self * other`, component by component.
    pub fn mul_assign(&mut self, other: Self)
        requires
            T::fits(old(self).x.val() * other.x.val()),
            T::fits(old(self).y.val() * other.y.val()),
        ensures
            final(self).x.val() == old(self).x.val() * other.x.val(),
            final(self).y.val() == old(self).y.val() * other.y.val(),
    {
        *self = self.mul(other);
    }

    /// `self = self / other`, component by component, rounded toward zero.
    pub fn div_assign(&mut self, other: Self)
        requires
            other.x.val() != 0,
            other.y.val() != 0,
            T::fits(trunc_div(old(self).x.val(), other.x.val())),
            T::fits(trunc_div(old(self).y.val(), other.y.val())),
        ensures
            final(self).x.val() == trunc_div(old(self).x.val(), other.x.val()),
            final(self).y.val() == trunc_div(old(self).y.val(), other.y.val()),
    {
        *self = self.div(other);
    }

    /// Every component equals `s`.
    pub fn eq_scalar(&self, s: &T) -> (r: bool)
        ensures
            r == (self.x == *s && self.y == *s),
    {
        self.x.equals(s) && self.y.equals(s)
    }

    /// Compares by components; see `order`.
    pub fn partial_cmp(&self, other: &Self) -> (r: Option<Ordering>)
        ensures
            r == self.order(*other),
    {
        let x = self.x.to_i128();
        let y = self.y.to_i128();
        let ox = other.x.to_i128();
        let oy = other.y.to_i128();
        if x == ox && y == oy {
            Some(Ordering::Equal)
        } else if x < ox && y < oy {
            Some(Ordering::Less)
        } else if x > ox && y > oy {
            Some(Ordering::Greater)
        } else {
            None
        }
    }

    /// The same values in another element type; `None` when one of them is out
    /// of that type's range.
    pub fn try_cast<U: Scalar>(self) -> (r: Option<xy<U>>)
        ensures
            r is Some <==> U::fits(self.x.val()) && U::fits(self.y.val()),
            r matches Some(v) ==> v.vals() == self.vals(),
    {
        let t = xy { x: U::try_from_i128(self.x.to_i128()), y: U::try_from_i128(self.y.to_i128()) };
        let r = t.transpose();
        proof {
            if let Some(v) = r {
                assert(v.vals() =~= self.vals());
            }
        }
        r
    }

    /// The same values in an element type whose range holds them.
    pub fn cast<U: Scalar>(self) -> (r: xy<U>)
        requires
            U::fits(self.x.val()),
            U::fits(self.y.val()),
        ensures
            r.vals() == self.vals(),
    {
        self.try_cast().unwrap()
    }
}

impl<T> xy<T> {
    /// The components swapped.
    pub fn yx(self) -> (r: xy<T>)
        ensures
            r.x == self.y,
            r.y == self.x,
    {
        xy { x: self.y, y: self.x }
    }
}

#[allow(non_camel_case_types)]
pub type uint2 = xy<u32>;

#[allow(non_camel_case_types)]
pub type int2 = xy<i32>;

#[allow(non_camel_case_types)]
pub type size = uint2;

/// An axis-aligned half-open region `[min, max)` of the integer plane.
pub type Rect = MinMax<int2>;

/// Both components lie in the range of `i32`.
pub open spec fn signed_ok(v: uint2) -> bool {
    v.x <= i32::MAX && v.y <= i32::MAX
}

/// `a.x * b.y - a.y * b.x`: the signed area of the parallelogram on `a` and `b`.
pub open spec fn cross2_spec<T: Scalar>(a: xy<T>, b: xy<T>) -> int {
    a.x.val() * b.y.val() - a.y.val() * b.x.val()
}

/// The z component of the cross product of `a` and `b` taken in the plane.
pub fn cross2<T: Scalar>(a: xy<T>, b: xy<T>) -> (r: T)
    requires
        T::fits(a.x.val() * b.y.val()),
        T::fits(a.y.val() * b.x.val()),
        T::fits(cross2_spec(a, b)),
    ensures
        r.val() == cross2_spec(a, b),
{
    let p = a.x.mul(b.y);
    let q = a.y.mul(b.x);
    proof {
        T::lemma_scalar(p, q);
    }
    p.sub(q)
}

impl xy<u32> {
    /// The same values as signed integers.
    pub fn signed(self) -> (r: xy<i32>)
        requires
            signed_ok(self),
        ensures
            r.x == self.x,
            r.y == self.y,
    {
        xy { x: self.x as i32, y: self.y as i32 }
    }
}

impl xy<i32> {
    /// The same values as unsigned integers; `None` when one is negative.
    pub fn try_unsigned(self) -> (r: Option<xy<u32>>)
        ensures
            r is Some <==> self.x >= 0 && self.y >= 0,
            r matches Some(v) ==> v.x == self.x && v.y == self.y,
    {
        let r = self.try_cast::<u32>();
        proof {
            if let Some(v) = r {
                assert(v.vals()[0] == self.vals()[0]);
                assert(v.vals()[1] == self.vals()[1]);
            }
        }
        r
    }

    /// The same values as unsigned integers; both must be non-negative.
    pub fn unsigned(self) -> (r: xy<u32>)
        requires
            self.x >= 0,
            self.y >= 0,
        ensures
            r.x == self.x,
            r.y == self.y,
    {
        self.try_unsigned().unwrap()
    }

    /// `r` moved by this offset.
    pub fn add_rect(self, r: Rect) -> (s: Rect)
        requires
            self.add_ok(r.min),
            self.add_ok(r.max),
        ensures
            s.min == self.add_spec(r.min),
            s.max == self.add_spec(r.max),
    {
        MinMax { min: self.add(r.min), max: self.add(r.max) }
    }
}

fn div_ceil_u32(n: u32, d: u32) -> (r: u32)
    requires
        d > 0,
    ensures
        r == (n + d - 1) / (d as int),
{
    let q: u32 = n / d;
    if n % d == 0 {
        assert(q == (n + d - 1) / (d as int)) by (nonlinear_arith)
            requires
                d > 0,
                q == n / d,
                n % d == 0,
        ;
        q
    } else {
        assert(q < u32::MAX && q + 1 == (n + d - 1) / (d as int)) by (nonlinear_arith)
            requires
                d > 0,
                q == n / d,
                n % d != 0,
                n <= u32::MAX,
        ;
        q + 1
    }
}

/// Each component of `n` divided by `d`, rounded up.
pub fn div_ceil(n: uint2, d: u32) -> (r: uint2)
    requires
        d > 0,
    ensures
        r.x == (n.x + d - 1) / (d as int),
        r.y == (n.y + d - 1) / (d as int),
{
    xy { x: div_ceil_u32(n.x, d), y: div_ceil_u32(n.y, d) }
}

/// `c + d`, where the sum lies in the range of `i32` but `d` may not.
fn offset(c: i32, d: i64) -> (r: i32)
    requires
        i32::MIN <= c + d <= i32::MAX,
    ensures
        r == c + d,
{
    ((c as i64) + d) as i32
}

/// `(max.x - min.x) * (max.y - min.y)`.
pub open spec fn area_spec(r: Rect) -> int {
    (r.max.x - r.min.x) * (r.max.y - r.min.y)
}

/// The extents of the box are non-negative and their product fits a `u32`.
pub open spec fn area_ok(r: Rect) -> bool {
    &&& r.min.x <= r.max.x
    &&& r.min.y <= r.max.y
    &&& r.max.x - r.min.x <= i32::MAX
    &&& r.max.y - r.min.y <= i32::MAX
    &&& area_spec(r) <= u32::MAX
}

impl MinMax<xy<u32>> {
    /// Both ends as signed coordinates.
    pub fn signed(self) -> (r: Rect)
        requires
            signed_ok(self.min),
            signed_ok(self.max),
        ensures
            r.min.x == self.min.x && r.min.y == self.min.y,
            r.max.x == self.max.x && r.max.y == self.max.y,
    {
        MinMax { min: self.min.signed(), max: self.max.signed() }
    }

    /// The product of the two extents.
    pub fn area(self) -> (r: u32)
        requires
            self.min.x <= self.max.x,
            self.min.y <= self.max.y,
            (self.max.x - self.min.x) * (self.max.y - self.min.y) <= u32::MAX,
        ensures
            r == (self.max.x - self.min.x) * (self.max.y - self.min.y),
    {
        (self.max.x - self.min.x) * (self.max.y - self.min.y)
    }
}

impl MinMax<xy<i32>> {
    /// Both ends as unsigned coordinates; `None` when one is negative.
    pub fn try_unsigned(self) -> (r: Option<MinMax<uint2>>)
        ensures
            r is Some <==> self.min.x >= 0 && self.min.y >= 0 && self.max.x >= 0 && self.max.y
                >= 0,
            r matches Some(b) ==> b.min.x == self.min.x && b.min.y == self.min.y && b.max.x
                == self.max.x && b.max.y == self.max.y,
    {
        match self.min.try_unsigned() {
            None => None,
            Some(min) => match self.max.try_unsigned() {
                None => None,
                Some(max) => Some(MinMax { min, max }),
            },
        }
    }

    /// Both ends as unsigned coordinates; none may be negative.
    pub fn unsigned(self) -> (r: MinMax<uint2>)
        requires
            self.min.x >= 0 && self.min.y >= 0 && self.max.x >= 0 && self.max.y >= 0,
        ensures
            r.min.x == self.min.x && r.min.y == self.min.y,
            r.max.x == self.max.x && r.max.y == self.max.y,
    {
        self.try_unsigned().unwrap()
    }

    /// The product of the two extents.
    pub fn area(self) -> (r: u32)
        requires
            area_ok(self),
        ensures
            r == area_spec(self),
    {
        let s = self.size().unsigned();
        assert(s.x * s.y == area_spec(self));
        s.x * s.y
    }

    /// The box grown by `pad` on every side.
    pub fn extend(self, pad: u32) -> (r: Rect)
        requires
            self.min.x - pad >= i32::MIN,
            self.min.y - pad >= i32::MIN,
            self.max.x + pad <= i32::MAX,
            self.max.y + pad <= i32::MAX,
        ensures
            r.min.x == self.min.x - pad && r.min.y == self.min.y - pad,
            r.max.x == self.max.x + pad && r.max.y == self.max.y + pad,
    {
        MinMax {
            min: xy { x: offset(self.min.x, -(pad as i64)), y: offset(self.min.y, -(pad as i64)) },
            max: xy { x: offset(self.max.x, pad as i64), y: offset(self.max.y, pad as i64) },
        }
    }

    /// The box moved by `-b`.
    pub fn sub(self, b: uint2) -> (r: Rect)
        requires
            self.min.x - b.x >= i32::MIN,
            self.min.y - b.y >= i32::MIN,
            self.max.x - b.x >= i32::MIN,
            self.max.y - b.y >= i32::MIN,
        ensures
            r.min.x == self.min.x - b.x && r.min.y == self.min.y - b.y,
            r.max.x == self.max.x - b.x && r.max.y == self.max.y - b.y,
    {
        MinMax {
            min: xy { x: offset(self.min.x, -(b.x as i64)), y: offset(self.min.y, -(b.y as i64)) },
            max: xy { x: offset(self.max.x, -(b.x as i64)), y: offset(self.max.y, -(b.y as i64)) },
        }
    }

    /// The box from the origin to `size`.
    pub fn from_size(size: uint2) -> (r: Rect)
        requires
            signed_ok(size),
        ensures
            r.min.x == 0 && r.min.y == 0,
            r.max.x == size.x && r.max.y == size.y,
    {
        MinMax { min: xy::zero(), max: size.signed() }
    }
}

/// Each component scaled by `scale`, rounded up.
pub fn ceil(scale: Ratio, v: uint2) -> (r: uint2)
    requires
        scale.div > 0,
        ceil_div(v.x * scale.num, scale.div as int) <= u32::MAX,
        ceil_div(v.y * scale.num, scale.div as int) <= u32::MAX,
    ensures
        r.x == ceil_div(v.x * scale.num, scale.div as int),
        r.y == ceil_div(v.y * scale.num, scale.div as int),
{
    xy { x: scale.ceil(v.x), y: scale.ceil(v.y) }
}

/// Each component scaled by `scale`, rounded down.
pub fn ifloor(scale: Ratio, v: int2) -> (r: int2)
    requires
        scale.div > 0,
        i32::MIN <= floor_div(v.x * scale.num, scale.div as int) <= i32::MAX,
        i32::MIN <= floor_div(v.y * scale.num, scale.div as int) <= i32::MAX,
    ensures
        r.x == floor_div(v.x * scale.num, scale.div as int),
        r.y == floor_div(v.y * scale.num, scale.div as int),
{
    xy { x: scale.ifloor(v.x), y: scale.ifloor(v.y) }
}

/// Each component scaled by `scale`, rounded up.
pub fn iceil(scale: Ratio, v: int2) -> (r: int2)
    requires
        scale.div > 0,
        i32::MIN <= ceil_div(v.x * scale.num, scale.div as int) <= i32::MAX,
        i32::MIN <= ceil_div(v.y * scale.num, scale.div as int) <= i32::MAX,
    ensures
        r.x == ceil_div(v.x * scale.num, scale.div as int),
        r.y == ceil_div(v.y * scale.num, scale.div as int),
{
    xy { x: scale.iceil(v.x), y: scale.iceil(v.y) }
}

/// The rectangle scaled by `scale`, grown outward to whole coordinates: the
/// lower corner rounded down, the upper one rounded up.
pub fn scale_rect(scale: Ratio, r: Rect) -> (s: Rect)
    requires
        scale.div > 0,
        i32::MIN <= floor_div(r.min.x * scale.num, scale.div as int) <= i32::MAX,
        i32::MIN <= floor_div(r.min.y * scale.num, scale.div as int) <= i32::MAX,
        i32::MIN <= ceil_div(r.max.x * scale.num, scale.div as int) <= i32::MAX,
        i32::MIN <= ceil_div(r.max.y * scale.num, scale.div as int) <= i32::MAX,
    ensures
        s.min.x == floor_div(r.min.x * scale.num, scale.div as int),
        s.min.y == floor_div(r.min.y * scale.num, scale.div as int),
        s.max.x == ceil_div(r.max.x * scale.num, scale.div as int),
        s.max.y == ceil_div(r.max.y * scale.num, scale.div as int),
{
    MinMax { min: ifloor(scale, r.min), max: iceil(scale, r.max) }
}

} // verus!
