use vstd::prelude::*;

use crate::scalar::{
    lemma_le_cw, lemma_max_associative, lemma_max_commutative, lemma_min_associative,
    lemma_min_commutative, Additive, ComponentWiseMinMax,
};

verus! {

/// A `{min, max}` pair: an axis-aligned range or box. Nothing forces
/// `min <= max`; an inverted pair may stand for an empty box.
#[derive(Clone, Copy, Debug, PartialEq, Eq)]
pub struct MinMax<T> {
    pub min: T,
    pub max: T,
}

impl<T: ComponentWiseMinMax> MinMax<T> {
    /// `min` is at most `max` in every component.
    pub open spec fn wf(self) -> bool {
        self.min.le_cw(self.max)
    }

    /// The smallest box that holds both boxes.
    pub open spec fn merge(self, other: Self) -> Self {
        MinMax { min: self.min.min_cw(other.min), max: self.max.max_cw(other.max) }
    }

    /// Each end clamped into `bound`, and the result kept inside `self`.
    pub open spec fn clip_spec(self, bound: Self) -> Self {
        MinMax {
            min: self.max.min_cw(self.min.max_cw(bound.min)),
            max: self.min.max_cw(self.max.min_cw(bound.max)),
        }
    }

    /// Merging `p` into the box leaves it as it is.
    pub open spec fn holds(self, p: T) -> bool {
        self.min.min_cw(p) == self.min && self.max.max_cw(p) == self.max
    }

    /// The two boxes share at least one point.
    pub open spec fn overlaps(self, other: Self) -> bool {
        self.min.max_cw(other.min).le_cw(self.max.min_cw(other.max))
    }

    pub fn minmax(self, other: Self) -> (r: Self)
        ensures
            r == self.merge(other),
    {
        MinMax {
            min: self.min.component_wise_min(other.min),
            max: self.max.component_wise_max(other.max),
        }
    }
}

impl<T: ComponentWiseMinMax + Copy> MinMax<T> {
    pub fn clip(self, b: Self) -> (r: Self)
        ensures
            r == self.clip_spec(b),
    {
        MinMax {
            min: self.max.component_wise_min(self.min.component_wise_max(b.min)),
            max: self.min.component_wise_max(self.max.component_wise_min(b.max)),
        }
    }

    pub fn contains(&self, p: T) -> (r: bool)
        ensures
            r == self.holds(p),
    {
        self.min.component_wise_min(p).equals(&self.min) && self.max.component_wise_max(
            p,
        ).equals(&self.max)
    }
}

impl<T: Additive> MinMax<T> {
    /// Moves both ends by `offset`.
    pub fn translate(&mut self, offset: T)
        requires
            old(self).min.add_ok(offset),
            old(self).max.add_ok(offset),
        ensures
            final(self).min == old(self).min.add_spec(offset),
            final(self).max == old(self).max.add_spec(offset),
    {
        self.min = self.min.add(offset);
        self.max = self.max.add(offset);
    }

    /// `max - min`; for an inverted box the result is negative.
    pub fn size(self) -> (r: T)
        requires
            self.max.sub_ok(self.min),
        ensures
            r == self.max.sub_spec(self.min),
    {
        self.max.sub(self.min)
    }
}

impl<T> MinMax<T> {
    /// The half-open interval `min..max`.
    pub fn range(self) -> (r: core::ops::Range<T>)
        ensures
            r.start == self.min,
            r.end == self.max,
    {
        let MinMax { min, max } = self;
        core::ops::Range { start: min, end: max }
    }

    /// Applies `f` to both ends; `None` as soon as `f` gives `None`.
    pub fn try_map<U, F: Fn(T) -> Option<U>>(self, f: F) -> (r: Option<MinMax<U>>)
        requires
            f.requires((self.min,)),
            f.requires((self.max,)),
        ensures
            r matches Some(b) ==> f.ensures((self.min,), Some(b.min)) && f.ensures(
                (self.max,),
                Some(b.max),
            ),
            r is None ==> f.ensures((self.min,), None) || f.ensures((self.max,), None),
    {
        let MinMax { min, max } = self;
        let lo = f(min);
        match lo {
            None => None,
            Some(lo) => {
                let hi = f(max);
                match hi {
                    None => None,
                    Some(hi) => Some(MinMax { min: lo, max: hi }),
                }
            },
        }
    }

    /// Applies `f` to both ends.
    pub fn map<U, F: Fn(T) -> U>(self, f: F) -> (r: MinMax<U>)
        requires
            f.requires((self.min,)),
            f.requires((self.max,)),
        ensures
            f.ensures((self.min,), r.min),
            f.ensures((self.max,), r.max),
    {
        let MinMax { min, max } = self;
        MinMax { min: f(min), max: f(max) }
    }
}

/// Component-wise minimum of a non-empty sequence, folded from the left.
pub open spec fn fold_min<T: ComponentWiseMinMax>(s: Seq<T>) -> T
    recommends
        s.len() > 0,
    decreases s.len(),
{
    if s.len() <= 1 {
        s[0]
    } else {
        fold_min(s.drop_last()).min_cw(s.last())
    }
}

/// Component-wise maximum of a non-empty sequence, folded from the left.
pub open spec fn fold_max<T: ComponentWiseMinMax>(s: Seq<T>) -> T
    recommends
        s.len() > 0,
    decreases s.len(),
{
    if s.len() <= 1 {
        s[0]
    } else {
        fold_max(s.drop_last()).max_cw(s.last())
    }
}

/// Merge of a non-empty sequence of boxes, folded from the left.
pub open spec fn fold_merge<T: ComponentWiseMinMax>(s: Seq<MinMax<T>>) -> MinMax<T>
    recommends
        s.len() > 0,
    decreases s.len(),
{
    if s.len() <= 1 {
        s[0]
    } else {
        fold_merge(s.drop_last()).merge(s.last())
    }
}

/// The component-wise minimum of the items; `None` when there are none.
pub fn min<T: ComponentWiseMinMax + Copy>(items: &Vec<T>) -> (r: Option<T>)
    ensures
        r is None <==> items@.len() == 0,
        r matches Some(m) ==> m == fold_min(items@),
{
    if items.len() == 0 {
        return None;
    }
    let mut acc = items[0];
    let mut i: usize = 1;
    while i < items.len()
        invariant
            1 <= i <= items@.len(),
            acc == fold_min(items@.take(i as int)),
        decreases items@.len() - i,
    {
        assert(items@.take(i + 1).drop_last() =~= items@.take(i as int));
        acc = acc.component_wise_min(items[i]);
        i = i + 1;
    }
    assert(items@.take(i as int) =~= items@);
    Some(acc)
}

/// The component-wise maximum of the items; `None` when there are none.
pub fn max<T: ComponentWiseMinMax + Copy>(items: &Vec<T>) -> (r: Option<T>)
    ensures
        r is None <==> items@.len() == 0,
        r matches Some(m) ==> m == fold_max(items@),
{
    if items.len() == 0 {
        return None;
    }
    let mut acc = items[0];
    let mut i: usize = 1;
    while i < items.len()
        invariant
            1 <= i <= items@.len(),
            acc == fold_max(items@.take(i as int)),
        decreases items@.len() - i,
    {
        assert(items@.take(i + 1).drop_last() =~= items@.take(i as int));
        acc = acc.component_wise_max(items[i]);
        i = i + 1;
    }
    assert(items@.take(i as int) =~= items@);
    Some(acc)
}

/// The merge of all the boxes; `None` when there are none.
pub fn reduce_minmax<T: ComponentWiseMinMax + Copy>(boxes: &Vec<MinMax<T>>) -> (r: Option<MinMax<T>>)
    ensures
        r is None <==> boxes@.len() == 0,
        r matches Some(m) ==> m == fold_merge(boxes@),
{
    if boxes.len() == 0 {
        return None;
    }
    let mut acc = boxes[0];
    let mut i: usize = 1;
    while i < boxes.len()
        invariant
            1 <= i <= boxes@.len(),
            acc == fold_merge(boxes@.take(i as int)),
        decreases boxes@.len() - i,
    {
        assert(boxes@.take(i + 1).drop_last() =~= boxes@.take(i as int));
        acc = acc.minmax(boxes[i]);
        i = i + 1;
    }
    assert(boxes@.take(i as int) =~= boxes@);
    Some(acc)
}

/// The box from the component-wise minimum to the component-wise maximum of the
/// points; `None` when there are none.
pub fn minmax<T: ComponentWiseMinMax + Copy>(points: &Vec<T>) -> (r: Option<MinMax<T>>)
    ensures
        r is None <==> points@.len() == 0,
        r matches Some(m) ==> m.min == fold_min(points@) && m.max == fold_max(points@),
{
    if points.len() == 0 {
        return None;
    }
    let mut acc = MinMax { min: points[0], max: points[0] };
    let mut i: usize = 1;
    while i < points.len()
        invariant
            1 <= i <= points@.len(),
            acc.min == fold_min(points@.take(i as int)),
            acc.max == fold_max(points@.take(i as int)),
        decreases points@.len() - i,
    {
        assert(points@.take(i + 1).drop_last() =~= points@.take(i as int));
        let p = points[i];
        acc = acc.minmax(MinMax { min: p, max: p });
        i = i + 1;
    }
    assert(points@.take(i as int) =~= points@);
    Some(acc)
}

/// Merging boxes does not depend on their order.
pub proof fn lemma_merge_commutative<T: ComponentWiseMinMax>(a: MinMax<T>, b: MinMax<T>)
    ensures
        a.merge(b) == b.merge(a),
{
    lemma_min_commutative(a.min, b.min);
    lemma_max_commutative(a.max, b.max);
}

/// Merging boxes does not depend on their grouping.
pub proof fn lemma_merge_associative<T: ComponentWiseMinMax>(
    a: MinMax<T>,
    b: MinMax<T>,
    c: MinMax<T>,
)
    ensures
        a.merge(b).merge(c) == a.merge(b.merge(c)),
{
    lemma_min_associative(a.min, b.min, c.min);
    lemma_max_associative(a.max, b.max, c.max);
}

/// A point is in the box exactly when it lies between its ends.
pub proof fn lemma_holds<T: ComponentWiseMinMax>(b: MinMax<T>, p: T)
    ensures
        b.holds(p) == (b.min.le_cw(p) && p.le_cw(b.max)),
{
    lemma_le_cw(b.min, p);
    lemma_le_cw(p, b.max);
}

/// A box whose `min` is at most its `max` holds both of its ends.
pub proof fn lemma_contains_ends<T: ComponentWiseMinMax>(b: MinMax<T>)
    requires
        b.wf(),
    ensures
        b.holds(b.min),
        b.holds(b.max),
{
    lemma_holds(b, b.min);
    lemma_holds(b, b.max);
    T::lemma_partial_order(b.min, b.max, b.max);
    T::lemma_partial_order(b.max, b.min, b.min);
}

/// Clipping a box to a bound that it overlaps gives a box whose ends lie both
/// in the bound and in the box.
pub proof fn lemma_clip_within<T: ComponentWiseMinMax>(b: MinMax<T>, bound: MinMax<T>)
    requires
        b.overlaps(bound),
    ensures
        bound.holds(b.clip_spec(bound).min),
        bound.holds(b.clip_spec(bound).max),
        b.holds(b.clip_spec(bound).min),
        b.holds(b.clip_spec(bound).max),
{
    let lo = b.min.max_cw(bound.min);
    let hi = b.max.min_cw(bound.max);
    T::lemma_bounds(b.min, bound.min, hi);
    T::lemma_bounds(b.max, bound.max, lo);
    T::lemma_partial_order(lo, hi, b.max);
    T::lemma_partial_order(lo, hi, bound.max);
    T::lemma_partial_order(b.min, lo, hi);
    T::lemma_partial_order(bound.min, lo, hi);
    lemma_le_cw(lo, b.max);
    lemma_le_cw(b.min, hi);
    lemma_holds(bound, lo);
    lemma_holds(bound, hi);
    lemma_holds(b, lo);
    lemma_holds(b, hi);
}

} // verus!
