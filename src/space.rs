use vstd::prelude::*;

use core::cmp::Ordering;

use crate::plane::xy;
use crate::reduce::Components;
use crate::scalar::{trunc_div, Additive, ComponentWiseMinMax, Scalar};

verus! {

/// A vector of three components: `x`, `y`, `z`, always in that order.
#[allow(non_camel_case_types)]
#[derive(Clone, Copy, Debug, PartialEq, Eq, Hash)]
pub struct xyz<T> {
    pub x: T,
    pub y: T,
    pub z: T,
}

/// Names one component of an `xyz`.
#[derive(Clone, Copy, Debug, PartialEq, Eq)]
pub enum Component {
    X,
    Y,
    Z,
}

impl Component {
    /// Every component, in order.
    pub fn enumerate() -> (r: [Component; 3])
        ensures
            r@ == seq![Component::X, Component::Y, Component::Z],
    {
        [Component::X, Component::Y, Component::Z]
    }
}

impl<T> xyz<T> {
    /// The component that `c` names.
    pub open spec fn comp(self, c: Component) -> T {
        match c {
            Component::X => self.x,
            Component::Y => self.y,
            Component::Z => self.z,
        }
    }

    /// Every component, in order.
    pub fn enumerate() -> (r: [Component; 3])
        ensures
            r@ == seq![Component::X, Component::Y, Component::Z],
    {
        Component::enumerate()
    }

    /// The component that `c` names, by reference.
    pub fn index(&self, c: Component) -> (r: &T)
        ensures
            *r == self.comp(c),
    {
        match c {
            Component::X => &self.x,
            Component::Y => &self.y,
            Component::Z => &self.z,
        }
    }

    /// The components as an array, in order.
    pub fn to_array(self) -> (r: [T; 3])
        ensures
            r@ == seq![self.x, self.y, self.z],
    {
        let xyz { x, y, z } = self;
        [x, y, z]
    }

    /// The vector whose components are the tuple's fields, in order.
    pub fn from_tuple(t: (T, T, T)) -> (r: Self)
        ensures
            r.x == t.0,
            r.y == t.1,
            r.z == t.2,
    {
        let (x, y, z) = t;
        xyz { x, y, z }
    }

    /// The components as a tuple, in order.
    pub fn to_tuple(self) -> (r: (T, T, T))
        ensures
            r == (self.x, self.y, self.z),
    {
        let xyz { x, y, z } = self;
        (x, y, z)
    }

    /// Applies `f` to each component.
    pub fn map<U, F: Fn(T) -> U>(self, f: F) -> (r: xyz<U>)
        requires
            f.requires((self.x,)),
            f.requires((self.y,)),
            f.requires((self.z,)),
        ensures
            f.ensures((self.x,), r.x),
            f.ensures((self.y,), r.y),
            f.ensures((self.z,), r.z),
    {
        let xyz { x, y, z } = self;
        xyz { x: f(x), y: f(y), z: f(z) }
    }

    /// Pairs the components of `self` and `b` that have the same name.
    pub fn zip<B>(self, b: xyz<B>) -> (r: xyz<(T, B)>)
        ensures
            r.x == (self.x, b.x),
            r.y == (self.y, b.y),
            r.z == (self.z, b.z),
    {
        let xyz { x, y, z } = self;
        let xyz { x: bx, y: by, z: bz } = b;
        xyz { x: (x, bx), y: (y, by), z: (z, bz) }
    }
}

impl<T: Copy> xyz<T> {
    /// The vector whose components are the array's elements, in order.
    pub fn from_array(a: [T; 3]) -> (r: Self)
        ensures
            r.x == a@[0],
            r.y == a@[1],
            r.z == a@[2],
    {
        xyz { x: a[0], y: a[1], z: a[2] }
    }

    /// Every component set to `v`.
    pub fn splat(v: T) -> (r: Self)
        ensures
            r.x == v,
            r.y == v,
            r.z == v,
    {
        xyz { x: v, y: v, z: v }
    }
}

impl<T> xyz<Option<T>> {
    /// All the components if each is present, else `None`.
    pub fn transpose(self) -> (r: Option<xyz<T>>)
        ensures
            r is Some <==> self.x is Some && self.y is Some && self.z is Some,
            r matches Some(v) ==> self.x == Some(v.x) && self.y == Some(v.y) && self.z == Some(v.z),
    {
        match self.to_tuple() {
            (Some(x), Some(y), Some(z)) => Some(xyz { x, y, z }),
            _ => None,
        }
    }
}

impl<T> Components<T> for xyz<T> {
    open spec fn comps(self) -> Seq<T> {
        seq![self.x, self.y, self.z]
    }

    open spec fn dim() -> nat {
        3
    }

    fn len(&self) -> (r: usize) {
        3
    }

    fn component(&self, i: usize) -> (r: &T) {
        if i == 0 {
            &self.x
        } else if i == 1 {
            &self.y
        } else {
            &self.z
        }
    }
}

impl<T: ComponentWiseMinMax> ComponentWiseMinMax for xyz<T> {
    open spec fn le_cw(self, other: Self) -> bool {
        self.x.le_cw(other.x) && self.y.le_cw(other.y) && self.z.le_cw(other.z)
    }

    open spec fn min_cw(self, other: Self) -> Self {
        xyz { x: self.x.min_cw(other.x), y: self.y.min_cw(other.y), z: self.z.min_cw(other.z) }
    }

    open spec fn max_cw(self, other: Self) -> Self {
        xyz { x: self.x.max_cw(other.x), y: self.y.max_cw(other.y), z: self.z.max_cw(other.z) }
    }

    proof fn lemma_partial_order(a: Self, b: Self, c: Self) {
        T::lemma_partial_order(a.x, b.x, c.x);
        T::lemma_partial_order(a.y, b.y, c.y);
        T::lemma_partial_order(a.z, b.z, c.z);
    }

    proof fn lemma_bounds(a: Self, b: Self, c: Self) {
        T::lemma_bounds(a.x, b.x, c.x);
        T::lemma_bounds(a.y, b.y, c.y);
        T::lemma_bounds(a.z, b.z, c.z);
    }

    fn component_wise_min(self, other: Self) -> (r: Self) {
        let xyz { x, y, z } = self;
        let xyz { x: ox, y: oy, z: oz } = other;
        xyz { x: x.component_wise_min(ox), y: y.component_wise_min(oy), z: z.component_wise_min(oz) }
    }

    fn component_wise_max(self, other: Self) -> (r: Self) {
        let xyz { x, y, z } = self;
        let xyz { x: ox, y: oy, z: oz } = other;
        xyz { x: x.component_wise_max(ox), y: y.component_wise_max(oy), z: z.component_wise_max(oz) }
    }

    fn equals(&self, other: &Self) -> (r: bool) {
        self.x.equals(&other.x) && self.y.equals(&other.y) && self.z.equals(&other.z)
    }
}

impl<T: Additive> Additive for xyz<T> {
    open spec fn add_ok(self, other: Self) -> bool {
        self.x.add_ok(other.x) && self.y.add_ok(other.y) && self.z.add_ok(other.z)
    }

    open spec fn add_spec(self, other: Self) -> Self {
        xyz { x: self.x.add_spec(other.x), y: self.y.add_spec(other.y), z: self.z.add_spec(other.z) }
    }

    open spec fn sub_ok(self, other: Self) -> bool {
        self.x.sub_ok(other.x) && self.y.sub_ok(other.y) && self.z.sub_ok(other.z)
    }

    open spec fn sub_spec(self, other: Self) -> Self {
        xyz { x: self.x.sub_spec(other.x), y: self.y.sub_spec(other.y), z: self.z.sub_spec(other.z) }
    }

    proof fn lemma_add_sub(a: Self, b: Self) {
        T::lemma_add_sub(a.x, b.x);
        T::lemma_add_sub(a.y, b.y);
        T::lemma_add_sub(a.z, b.z);
    }

    fn add(self, other: Self) -> (r: Self) {
        xyz { x: self.x.add(other.x), y: self.y.add(other.y), z: self.z.add(other.z) }
    }

    fn sub(self, other: Self) -> (r: Self) {
        xyz { x: self.x.sub(other.x), y: self.y.sub(other.y), z: self.z.sub(other.z) }
    }
}

impl<T: Additive> xyz<T> {
    /// `self = self + other`.
    pub fn add_assign(&mut self, other: Self)
        requires
            old(self).add_ok(other),
        ensures
            *final(self) == old(self).add_spec(other),
    {
        *self = self.add(other);
    }

    /// `self = self - other`.
    pub fn sub_assign(&mut self, other: Self)
        requires
            old(self).sub_ok(other),
        ensures
            *final(self) == old(self).sub_spec(other),
    {
        *self = self.sub(other);
    }
}

impl<T: Scalar> xyz<T> {
    /// The component values, in order.
    pub open spec fn vals(self) -> Seq<int> {
        seq![self.x.val(), self.y.val(), self.z.val()]
    }

    /// Some(Equal) when every component is equal, Some(Less) or Some(Greater)
    /// when every component compares so, and None for any mix.
    pub open spec fn order(self, other: Self) -> Option<Ordering> {
        if self.x.val() == other.x.val() && self.y.val() == other.y.val() && self.z.val() == other.z.val() {
            Some(Ordering::Equal)
        } else if self.x.val() < other.x.val() && self.y.val() < other.y.val() && self.z.val() < other.z.val() {
            Some(Ordering::Less)
        } else if self.x.val() > other.x.val() && self.y.val() > other.y.val() && self.z.val() > other.z.val() {
            Some(Ordering::Greater)
        } else {
            None
        }
    }

    /// Every component zero.
    pub fn zero() -> (r: Self)
        ensures
            r.vals() == seq![0int, 0int, 0int],
    {
        xyz { x: T::zero(), y: T::zero(), z: T::zero() }
    }

    /// Component-wise product.
    pub fn mul(self, other: Self) -> (r: Self)
        requires
            T::fits(self.x.val() * other.x.val()),
            T::fits(self.y.val() * other.y.val()),
            T::fits(self.z.val() * other.z.val()),
        ensures
            r.x.val() == self.x.val() * other.x.val(),
            r.y.val() == self.y.val() * other.y.val(),
            r.z.val() == self.z.val() * other.z.val(),
    {
        xyz { x: self.x.mul(other.x), y: self.y.mul(other.y), z: self.z.mul(other.z) }
    }

    /// Component-wise quotient, rounded toward zero.
    pub fn div(self, other: Self) -> (r: Self)
        requires
            other.x.val() != 0,
            other.y.val() != 0,
            other.z.val() != 0,
            T::fits(trunc_div(self.x.val(), other.x.val())),
            T::fits(trunc_div(self.y.val(), other.y.val())),
            T::fits(trunc_div(self.z.val(), other.z.val())),
        ensures
            r.x.val() == trunc_div(self.x.val(), other.x.val()),
            r.y.val() == trunc_div(self.y.val(), other.y.val()),
            r.z.val() == trunc_div(self.z.val(), other.z.val()),
    {
        xyz { x: self.x.div(other.x), y: self.y.div(other.y), z: self.z.div(other.z) }
    }

    /// Every component negated.
    pub fn neg(self) -> (r: Self)
        requires
            T::fits(-self.x.val()),
            T::fits(-self.y.val()),
            T::fits(-self.z.val()),
        ensures
            r.x.val() == -self.x.val(),
            r.y.val() == -self.y.val(),
            r.z.val() == -self.z.val(),
    {
        xyz { x: self.x.neg(), y: self.y.neg(), z: self.z.neg() }
    }

    /// Each component multiplied by the scalar `s`.
    pub fn scale(self, s: T) -> (r: Self)
        requires
            T::fits(s.val() * self.x.val()),
            T::fits(s.val() * self.y.val()),
            T::fits(s.val() * self.z.val()),
        ensures
            r.x.val() == s.val() * self.x.val(),
            r.y.val() == s.val() * self.y.val(),
            r.z.val() == s.val() * self.z.val(),
    {
        xyz { x: s.mul(self.x), y: s.mul(self.y), z: s.mul(self.z) }
    }

    /// Each component divided by the scalar `s`, rounded toward zero.
    pub fn div_scalar(self, s: T) -> (r: Self)
        requires
            s.val() != 0,
            T::fits(trunc_div(self.x.val(), s.val())),
            T::fits(trunc_div(self.y.val(), s.val())),
            T::fits(trunc_div(self.z.val(), s.val())),
        ensures
            r.x.val() == trunc_div(self.x.val(), s.val()),
            r.y.val() == trunc_div(self.y.val(), s.val()),
            r.z.val() == trunc_div(self.z.val(), s.val()),
    {
        xyz { x: self.x.div(s), y: self.y.div(s), z: self.z.div(s) }
    }

    /// The scalar `s` divided by each component, rounded toward zero.
    pub fn scalar_div(self, s: T) -> (r: Self)
        requires
            self.x.val() != 0,
            self.y.val() != 0,
            self.z.val() != 0,
            T::fits(trunc_div(s.val(), self.x.val())),
            T::fits(trunc_div(s.val(), self.y.val())),
            T::fits(trunc_div(s.val(), self.z.val())),
        ensures
            r.x.val() == trunc_div(s.val(), self.x.val()),
            r.y.val() == trunc_div(s.val(), self.y.val()),
            r.z.val() == trunc_div(s.val(), self.z.val()),
    {
        xyz { x: s.div(self.x), y: s.div(self.y), z: s.div(self.z) }
    }

    /// `self = self * other`, component by component.
    pub fn mul_assign(&mut self, other: Self)
        requires
            T::fits(old(self).x.val() * other.x.val()),
            T::fits(old(self).y.val() * other.y.val()),
            T::fits(old(self).z.val() * other.z.val()),
        ensures
            final(self).x.val() == old(self).x.val() * other.x.val(),
            final(self).y.val() == old(self).y.val() * other.y.val(),
            final(self).z.val() == old(self).z.val() * other.z.val(),
    {
        *self = self.mul(other);
    }

    /// `self = self / other`, component by component, rounded toward zero.
    pub fn div_assign(&mut self, other: Self)
        requires
            other.x.val() != 0,
            other.y.val() != 0,
            other.z.val() != 0,
            T::fits(trunc_div(old(self).x.val(), other.x.val())),
            T::fits(trunc_div(old(self).y.val(), other.y.val())),
            T::fits(trunc_div(old(self).z.val(), other.z.val())),
        ensures
            final(self).x.val() == trunc_div(old(self).x.val(), other.x.val()),
            final(self).y.val() == trunc_div(old(self).y.val(), other.y.val()),
            final(self).z.val() == trunc_div(old(self).z.val(), other.z.val()),
    {
        *self = self.div(other);
    }

    /// Every component equals `s`.
    pub fn eq_scalar(&self, s: &T) -> (r: bool)
        ensures
            r == (self.x == *s && self.y == *s && self.z == *s),
    {
        self.x.equals(s) && self.y.equals(s) && self.z.equals(s)
    }

    /// Compares by components; see `order`.
    pub fn partial_cmp(&self, other: &Self) -> (r: Option<Ordering>)
        ensures
            r == self.order(*other),
    {
        let x = self.x.to_i128();
        let y = self.y.to_i128();
        let z = self.z.to_i128();
        let ox = other.x.to_i128();
        let oy = other.y.to_i128();
        let oz = other.z.to_i128();
        if x == ox && y == oy && z == oz {
            Some(Ordering::Equal)
        } else if x < ox && y < oy && z < oz {
            Some(Ordering::Less)
        } else if x > ox && y > oy && z > oz {
            Some(Ordering::Greater)
        } else {
            None
        }
    }

    /// The same values in another element type; `None` when one of them is out
    /// of that type's range.
    pub fn try_cast<U: Scalar>(self) -> (r: Option<xyz<U>>)
        ensures
            r is Some <==> U::fits(self.x.val()) && U::fits(self.y.val()) && U::fits(self.z.val()),
            r matches Some(v) ==> v.vals() == self.vals(),
    {
        let t = xyz { x: U::try_from_i128(self.x.to_i128()), y: U::try_from_i128(self.y.to_i128()), z: U::try_from_i128(self.z.to_i128()) };
        let r = t.transpose();
        proof {
            if let Some(v) = r {
                assert(v.vals() =~= self.vals());
            }
        }
        r
    }

    /// The same values in an element type whose range holds them.
    pub fn cast<U: Scalar>(self) -> (r: xyz<U>)
        requires
            U::fits(self.x.val()),
            U::fits(self.y.val()),
            U::fits(self.z.val()),
        ensures
            r.vals() == self.vals(),
    {
        self.try_cast().unwrap()
    }
}

impl<T> xyz<T> {
    /// The vector `(v.x, v.y, z)`.
    pub fn xy_z(v: xy<T>, z: T) -> (r: Self)
        ensures
            r.x == v.x,
            r.y == v.y,
            r.z == z,
    {
        let xy { x, y } = v;
        xyz { x, y, z }
    }

    pub fn xy(self) -> (r: xy<T>)
        ensures
            r.x == self.x,
            r.y == self.y,
    {
        let xyz { x, y, z: _ } = self;
        xy { x, y }
    }

    pub fn yz(self) -> (r: xy<T>)
        ensures
            r.x == self.y,
            r.y == self.z,
    {
        let xyz { x: _, y, z } = self;
        xy { x: y, y: z }
    }

    pub fn zx(self) -> (r: xy<T>)
        ensures
            r.x == self.z,
            r.y == self.x,
    {
        let xyz { x, y: _, z } = self;
        xy { x: z, y: x }
    }

    pub fn xz(self) -> (r: xy<T>)
        ensures
            r.x == self.x,
            r.y == self.z,
    {
        let xyz { x, y: _, z } = self;
        xy { x, y: z }
    }
}

/// `a.p * b.q - a.q * b.p`, the difference of two products of components.
pub open spec fn cross_term(ap: int, aq: int, bp: int, bq: int) -> int {
    ap * bq - aq * bp
}

/// Both products of a cross product term, and their difference, lie in range.
pub open spec fn cross_term_ok<T: Scalar>(ap: T, aq: T, bp: T, bq: T) -> bool {
    &&& T::fits(ap.val() * bq.val())
    &&& T::fits(aq.val() * bp.val())
    &&& T::fits(cross_term(ap.val(), aq.val(), bp.val(), bq.val()))
}

fn cross_component<T: Scalar>(ap: T, aq: T, bp: T, bq: T) -> (r: T)
    requires
        cross_term_ok(ap, aq, bp, bq),
    ensures
        r.val() == cross_term(ap.val(), aq.val(), bp.val(), bq.val()),
{
    let s = ap.mul(bq);
    let t = aq.mul(bp);
    proof {
        T::lemma_scalar(s, t);
    }
    s.sub(t)
}

/// The cross product `a × b`.
pub fn cross<T: Scalar>(a: xyz<T>, b: xyz<T>) -> (r: xyz<T>)
    requires
        cross_term_ok(a.y, a.z, b.y, b.z),
        cross_term_ok(a.z, a.x, b.z, b.x),
        cross_term_ok(a.x, a.y, b.x, b.y),
    ensures
        r.x.val() == a.y.val() * b.z.val() - a.z.val() * b.y.val(),
        r.y.val() == a.z.val() * b.x.val() - a.x.val() * b.z.val(),
        r.z.val() == a.x.val() * b.y.val() - a.y.val() * b.x.val(),
{
    xyz {
        x: cross_component(a.y, a.z, b.y, b.z),
        y: cross_component(a.z, a.x, b.z, b.x),
        z: cross_component(a.x, a.y, b.x, b.y),
    }
}

} // verus!
