use vstd::prelude::*;

use crate::scalar::{Additive, Scalar};

verus! {

/// A value made of a fixed number of components, read one by one.
pub trait Components<T>: Sized {
    /// The components, in order.
    spec fn comps(self) -> Seq<T>;

    /// The number of components, the same for every value of the type.
    spec fn dim() -> nat;

    fn len(&self) -> (r: usize)
        ensures
            r == Self::dim(),
    ;

    fn component(&self, i: usize) -> (r: &T)
        requires
            i < Self::dim(),
        ensures
            *r == self.comps()[i as int],
    ;
}

/// Sum of the products of the first `n` components.
pub open spec fn dot_upto<T: Scalar>(a: Seq<T>, b: Seq<T>, n: int) -> int
    decreases n,
{
    if n <= 0 {
        0
    } else {
        dot_upto(a, b, n - 1) + a[n - 1].val() * b[n - 1].val()
    }
}

/// The dot product as an integer.
pub open spec fn dot_spec<T: Scalar, V: Components<T>>(a: V, b: V) -> int {
    dot_upto(a.comps(), b.comps(), V::dim() as int)
}

/// Every product of components, and every partial sum of them in order, lies
/// in the range of `T`.
pub open spec fn dot_fits<T: Scalar, V: Components<T>>(a: V, b: V) -> bool {
    forall|k: int|
        0 < k <= V::dim() ==> T::fits(#[trigger] a.comps()[k - 1].val() * b.comps()[k - 1].val())
            && T::fits(dot_upto(a.comps(), b.comps(), k))
}

/// Sum of the component-wise products, added in component order.
pub fn dot<T: Scalar, V: Components<T>>(a: V, b: V) -> (r: T)
    requires
        dot_fits::<T, V>(a, b),
    ensures
        r.val() == dot_spec::<T, V>(a, b),
{
    let n = a.len();
    let mut acc = T::zero();
    let mut i: usize = 0;
    while i < n
        invariant
            n == V::dim(),
            i <= n,
            dot_fits::<T, V>(a, b),
            acc.val() == dot_upto(a.comps(), b.comps(), i as int),
        decreases n - i,
    {
        let ai = *a.component(i);
        let bi = *b.component(i);
        assert(T::fits(a.comps()[i + 1 - 1].val() * b.comps()[i + 1 - 1].val()));
        let p = ai.mul(bi);
        proof {
            T::lemma_scalar(acc, p);
        }
        acc = acc.add(p);
        i = i + 1;
    }
    acc
}

/// The squared length: the dot product of `v` with itself.
pub fn sq<T: Scalar, V: Components<T> + Copy>(v: V) -> (r: T)
    requires
        dot_fits::<T, V>(v, v),
    ensures
        r.val() == dot_spec::<T, V>(v, v),
{
    dot(v, v)
}

proof fn lemma_dot_upto_symmetric<T: Scalar>(a: Seq<T>, b: Seq<T>, n: int)
    ensures
        dot_upto(a, b, n) == dot_upto(b, a, n),
    decreases n,
{
    if n > 0 {
        lemma_dot_upto_symmetric(a, b, n - 1);
        assert(a[n - 1].val() * b[n - 1].val() == b[n - 1].val() * a[n - 1].val())
            by (nonlinear_arith);
    }
}

/// The dot product does not depend on the order of its arguments.
pub proof fn lemma_dot_symmetric<T: Scalar, V: Components<T>>(a: V, b: V)
    ensures
        dot_spec::<T, V>(a, b) == dot_spec::<T, V>(b, a),
{
    lemma_dot_upto_symmetric(a.comps(), b.comps(), V::dim() as int);
}

proof fn lemma_dot_upto_square<T: Scalar>(a: Seq<T>, b: Seq<T>, k: int, n: int)
    requires
        forall|i: int| 0 <= i < n ==> #[trigger] b[i].val() == k * a[i].val(),
    ensures
        dot_upto(a, a, n) >= 0,
        dot_upto(b, b, n) == k * k * dot_upto(a, a, n),
    decreases n,
{
    if n > 0 {
        lemma_dot_upto_square(a, b, k, n - 1);
        let x = a[n - 1].val();
        let y = b[n - 1].val();
        assert(y == k * x);
        assert(x * x >= 0) by (nonlinear_arith);
        assert(y * y == k * k * (x * x)) by (nonlinear_arith)
            requires
                y == k * x,
        ;
        assert(k * k * dot_upto(a, a, n - 1) + k * k * (x * x) == k * k * (dot_upto(
            a,
            a,
            n - 1,
        ) + x * x)) by (nonlinear_arith);
    }
}

/// The squared length is never negative.
pub proof fn lemma_sq_nonnegative<T: Scalar, V: Components<T>>(v: V)
    ensures
        dot_spec::<T, V>(v, v) >= 0,
{
    lemma_dot_upto_square(v.comps(), v.comps(), 1, V::dim() as int);
}

/// Scaling every component by `k` scales the squared length by `k * k`.
pub proof fn lemma_sq_scale<T: Scalar, V: Components<T>>(v: V, w: V, k: int)
    requires
        forall|i: int| 0 <= i < V::dim() ==> #[trigger] w.comps()[i].val() == k * v.comps()[i].val(),
    ensures
        dot_spec::<T, V>(w, w) == k * k * dot_spec::<T, V>(v, v),
{
    lemma_dot_upto_square(v.comps(), w.comps(), k, V::dim() as int);
}

/// `start` plus the first `n` items, added in order.
pub open spec fn sum_upto<V: Additive>(start: V, s: Seq<V>, n: int) -> V
    decreases n,
{
    if n <= 0 {
        start
    } else {
        sum_upto(start, s, n - 1).add_spec(s[n - 1])
    }
}

/// Each addition of the sum stays in range.
pub open spec fn sum_fits<V: Additive>(start: V, s: Seq<V>) -> bool {
    forall|k: int| 0 <= k < s.len() ==> #[trigger] sum_upto(start, s, k).add_ok(s[k])
}

/// `start` plus every item, added in order; with the zero vector as `start`,
/// the sum of the items.
pub fn sum<V: Additive>(start: V, items: &Vec<V>) -> (r: V)
    requires
        sum_fits(start, items@),
    ensures
        r == sum_upto(start, items@, items@.len() as int),
{
    let mut acc = start;
    let mut i: usize = 0;
    while i < items.len()
        invariant
            i <= items@.len(),
            sum_fits(start, items@),
            acc == sum_upto(start, items@, i as int),
        decreases items@.len() - i,
    {
        assert(sum_upto(start, items@, i as int).add_ok(items@[i as int]));
        acc = acc.add(items[i]);
        i = i + 1;
    }
    acc
}

} // verus!
