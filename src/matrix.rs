use vstd::prelude::*;

use crate::reduce::dot_upto;
use crate::scalar::Scalar;

verus! {

/// The rows of a matrix as sequences.
pub open spec fn rows<T>(m: Seq<Vec<T>>) -> Seq<Seq<T>> {
    m.map_values(|r: Vec<T>| r@)
}

/// Every row has `cols` entries.
pub open spec fn is_rect<T>(m: Seq<Seq<T>>, cols: nat) -> bool {
    forall|i: int| 0 <= i < m.len() ==> #[trigger] m[i].len() == cols
}

/// As many entries in each row as there are rows.
pub open spec fn is_square<T>(m: Seq<Seq<T>>) -> bool {
    is_rect(m, m.len())
}

/// Column `j` of `m`.
pub open spec fn column<T>(m: Seq<Seq<T>>, j: int) -> Seq<T> {
    Seq::new(m.len(), |k: int| m[k][j])
}

/// `m` without row `i` and column `j`.
pub open spec fn submatrix_of<T>(m: Seq<Seq<T>>, i: int, j: int) -> Seq<Seq<T>> {
    m.remove(i).map_values(|r: Seq<T>| r.remove(j))
}

/// `1` for an even `k`, `-1` for an odd one.
pub open spec fn sign(k: int) -> int {
    if k % 2 == 0 {
        1
    } else {
        -1
    }
}

/// The first `k` terms of the cofactor expansion of `m` along its first row;
/// for a 1×1 matrix, its entry.
pub open spec fn det_upto<T: Scalar>(m: Seq<Seq<T>>, k: int) -> int
    decreases m.len(), k,
{
    if m.len() <= 1 {
        m[0][0].val()
    } else if k <= 0 {
        0
    } else {
        det_upto(m, k - 1) + m[0][k - 1].val() * (sign(k - 1) * det_upto(
            submatrix_of(m, 0, k - 1),
            m.len() - 1,
        ))
    }
}

/// The determinant, by cofactor expansion along the first row.
pub open spec fn determinant<T: Scalar>(m: Seq<Seq<T>>) -> int {
    det_upto(m, m.len() as int)
}

/// The minor of entry `(i, j)`: the determinant of `m` without row `i` and
/// column `j`.
pub open spec fn minor_spec<T: Scalar>(m: Seq<Seq<T>>, i: int, j: int) -> int {
    determinant(submatrix_of(m, i, j))
}

/// The cofactor of entry `(i, j)`: its minor, negated when `i + j` is odd.
pub open spec fn cofactor_spec<T: Scalar>(m: Seq<Seq<T>>, i: int, j: int) -> int {
    sign(i + j) * minor_spec(m, i, j)
}

/// Every value that the expansion of `m` computes lies in the range of `T`:
/// the determinant of each minor, each signed term, and each partial sum.
pub open spec fn det_fits<T: Scalar>(m: Seq<Seq<T>>) -> bool
    decreases m.len(),
{
    m.len() <= 1 || {
        &&& forall|j: int|
            0 <= j < m.len() ==> {
                &&& det_fits(#[trigger] submatrix_of(m, 0, j))
                &&& T::fits(determinant(submatrix_of(m, 0, j)))
                &&& T::fits(sign(j) * determinant(submatrix_of(m, 0, j)))
                &&& T::fits(m[0][j].val() * (sign(j) * determinant(submatrix_of(m, 0, j))))
            }
        &&& forall|k: int| 0 < k <= m.len() ==> T::fits(#[trigger] det_upto(m, k))
    }
}

/// Rows become columns. The number of columns is read from the first row; a
/// matrix without rows gives one without rows.
pub fn transpose<T: Copy>(m: &Vec<Vec<T>>) -> (r: Vec<Vec<T>>)
    requires
        m@.len() > 0 ==> is_rect(rows(m@), m@[0]@.len()),
    ensures
        r@.len() == if m@.len() == 0 { 0 } else { m@[0]@.len() },
        is_rect(rows(r@), m@.len()),
        forall|i: int, j: int|
            0 <= i < r@.len() && 0 <= j < m@.len() ==> r@[i]@[j] == #[trigger] m@[j]@[i],
{
    let mut r: Vec<Vec<T>> = Vec::new();
    if m.len() == 0 {
        return r;
    }
    let cols = m[0].len();
    let mut i: usize = 0;
    while i < cols
        invariant
            cols == m@[0]@.len(),
            m@.len() > 0,
            is_rect(rows(m@), cols as nat),
            i <= cols,
            r@.len() == i,
            is_rect(rows(r@), m@.len()),
            forall|a: int, b: int|
                0 <= a < i && 0 <= b < m@.len() ==> r@[a]@[b] == #[trigger] m@[b]@[a],
        decreases cols - i,
    {
        let mut row: Vec<T> = Vec::new();
        let mut j: usize = 0;
        while j < m.len()
            invariant
                cols == m@[0]@.len(),
                is_rect(rows(m@), cols as nat),
                i < cols,
                j <= m@.len(),
                row@.len() == j,
                forall|b: int| 0 <= b < j ==> row@[b] == #[trigger] m@[b]@[i as int],
            decreases m@.len() - j,
        {
            assert(rows(m@)[j as int].len() == cols);
            row.push(m[j][i]);
            j = j + 1;
        }
        let ghost prev = r@;
        r.push(row);
        assert forall|q: int| 0 <= q < r@.len() implies #[trigger] rows(r@)[q].len() == m@.len() by {
            if q < i {
                assert(r@[q] == prev[q]);
                assert(rows(prev)[q].len() == m@.len());
            }
        }
        i = i + 1;
    }
    r
}

/// `m` without row `i` and column `j`, the other entries in their order.
pub fn submatrix<T: Copy>(m: &Vec<Vec<T>>, i: usize, j: usize) -> (r: Vec<Vec<T>>)
    requires
        is_square(rows(m@)),
        i < m@.len(),
        j < m@.len(),
    ensures
        rows(r@) == submatrix_of(rows(m@), i as int, j as int),
        is_square(rows(r@)),
{
    let n = m.len();
    let ghost mm = rows(m@);
    let mut r: Vec<Vec<T>> = Vec::new();
    let mut a: usize = 0;
    while a < n
        invariant
            n == m@.len(),
            mm == rows(m@),
            is_square(mm),
            i < n,
            j < n,
            a <= n,
            r@.len() == if a <= i { a as int } else { a - 1 },
            forall|q: int|
                0 <= q < r@.len() ==> #[trigger] r@[q]@ == mm[if q < i { q } else { q + 1 }].remove(
                    j as int,
                ),
        decreases n - a,
    {
        if a != i {
            let mut row: Vec<T> = Vec::new();
            let mut b: usize = 0;
            while b < n
                invariant
                    n == m@.len(),
                    mm == rows(m@),
                    is_square(mm),
                    a < n,
                    j < n,
                    b <= n,
                    row@.len() == if b <= j { b as int } else { b - 1 },
                    forall|p: int|
                        0 <= p < row@.len() ==> #[trigger] row@[p] == mm[a as int][if p < j {
                            p
                        } else {
                            p + 1
                        }],
                decreases n - b,
            {
                assert(mm[a as int].len() == n);
                if b != j {
                    row.push(m[a][b]);
                }
                b = b + 1;
            }
            assert(row@ =~= mm[a as int].remove(j as int));
            r.push(row);
        }
        a = a + 1;
    }
    assert(rows(r@) =~= submatrix_of(mm, i as int, j as int)) by {
        assert forall|q: int| 0 <= q < r@.len() implies #[trigger] rows(r@)[q] == submatrix_of(
            mm,
            i as int,
            j as int,
        )[q] by {
            assert(mm.remove(i as int)[q] == mm[if q < i { q } else { q + 1 }]);
        }
    }
    assert forall|q: int| 0 <= q < r@.len() implies #[trigger] rows(r@)[q].len() == r@.len() by {
        assert(mm[if q < i { q } else { q + 1 }].len() == n);
    }
    r
}

/// The determinant, by cofactor expansion along the first row. The work grows
/// as the factorial of the order: this is meant for small matrices.
pub fn det<T: Scalar>(m: &Vec<Vec<T>>) -> (r: T)
    requires
        is_square(rows(m@)),
        m@.len() >= 1,
        det_fits(rows(m@)),
    ensures
        r.val() == determinant(rows(m@)),
    decreases m@.len(),
{
    let n = m.len();
    let ghost mm = rows(m@);
    assert(mm[0].len() == n);
    if n == 1 {
        return m[0][0];
    }
    let mut acc = T::zero();
    let mut j: usize = 0;
    while j < n
        invariant
            n == m@.len(),
            n >= 2,
            mm == rows(m@),
            is_square(mm),
            det_fits(mm),
            j <= n,
            acc.val() == det_upto(mm, j as int),
        decreases n - j,
    {
        let sub = submatrix(m, 0, j);
        assert(det_fits(submatrix_of(mm, 0, j as int)));
        let d = det(&sub);
        let c = if j % 2 == 0 {
            d
        } else {
            d.neg()
        };
        assert(mm[0].len() == n);
        let t = m[0][j].mul(c);
        assert(T::fits(det_upto(mm, j + 1)));
        proof {
            T::lemma_scalar(acc, t);
        }
        acc = acc.add(t);
        j = j + 1;
    }
    acc
}

/// Every cofactor of `m` can be computed in the range of `T`.
pub open spec fn cofactors_fit<T: Scalar>(m: Seq<Seq<T>>) -> bool {
    forall|i: int, j: int|
        0 <= i < m.len() && 0 <= j < m.len() ==> {
            &&& det_fits(#[trigger] submatrix_of(m, i, j))
            &&& T::fits(cofactor_spec(m, i, j))
        }
}

/// The minor of entry `(i, j)`: the determinant of `m` without row `i` and
/// column `j`.
pub fn minor<T: Scalar>(m: &Vec<Vec<T>>, i: usize, j: usize) -> (r: T)
    requires
        is_square(rows(m@)),
        m@.len() >= 2,
        i < m@.len(),
        j < m@.len(),
        det_fits(submatrix_of(rows(m@), i as int, j as int)),
    ensures
        r.val() == minor_spec(rows(m@), i as int, j as int),
{
    let sub = submatrix(m, i, j);
    det(&sub)
}

/// The cofactor of entry `(i, j)`: its minor, negated when `i + j` is odd.
pub fn cofactor<T: Scalar>(m: &Vec<Vec<T>>, i: usize, j: usize) -> (r: T)
    requires
        is_square(rows(m@)),
        m@.len() >= 2,
        i < m@.len(),
        j < m@.len(),
        det_fits(submatrix_of(rows(m@), i as int, j as int)),
        T::fits(cofactor_spec(rows(m@), i as int, j as int)),
    ensures
        r.val() == cofactor_spec(rows(m@), i as int, j as int),
{
    let d = minor(m, i, j);
    assert(((i + j) as int % 2 == 0) == (i % 2 == j % 2));
    if i % 2 == j % 2 {
        d
    } else {
        d.neg()
    }
}

/// The transposed matrix of cofactors.
pub fn adjugate<T: Scalar>(m: &Vec<Vec<T>>) -> (r: Vec<Vec<T>>)
    requires
        is_square(rows(m@)),
        m@.len() >= 2,
        cofactors_fit(rows(m@)),
    ensures
        r@.len() == m@.len(),
        is_square(rows(r@)),
        forall|i: int, j: int|
            0 <= i < r@.len() && 0 <= j < r@.len() ==> (#[trigger] r@[i]@[j]).val()
                == cofactor_spec(rows(m@), j, i),
{
    let n = m.len();
    let mut r: Vec<Vec<T>> = Vec::new();
    let mut i: usize = 0;
    while i < n
        invariant
            n == m@.len(),
            n >= 2,
            is_square(rows(m@)),
            cofactors_fit(rows(m@)),
            i <= n,
            r@.len() == i,
            forall|a: int| 0 <= a < i ==> (#[trigger] r@[a])@.len() == n,
            forall|a: int, b: int|
                0 <= a < i && 0 <= b < n ==> (#[trigger] r@[a]@[b]).val() == cofactor_spec(
                    rows(m@),
                    b,
                    a,
                ),
        decreases n - i,
    {
        let mut row: Vec<T> = Vec::new();
        let mut j: usize = 0;
        while j < n
            invariant
                n == m@.len(),
                n >= 2,
                is_square(rows(m@)),
                cofactors_fit(rows(m@)),
                i < n,
                j <= n,
                row@.len() == j,
                forall|b: int|
                    0 <= b < j ==> (#[trigger] row@[b]).val() == cofactor_spec(
                        rows(m@),
                        b,
                        i as int,
                    ),
            decreases n - j,
        {
            assert(det_fits(submatrix_of(rows(m@), j as int, i as int)));
            row.push(cofactor(m, j, i));
            j = j + 1;
        }
        r.push(row);
        i = i + 1;
    }
    r
}

/// The inverse of a matrix whose determinant is a unit of the integers (1 or
/// -1): the adjugate divided by the determinant, which is the adjugate times
/// the determinant. No other integer matrix has an integer inverse.
pub fn inverse<T: Scalar>(m: &Vec<Vec<T>>) -> (r: Vec<Vec<T>>)
    requires
        is_square(rows(m@)),
        m@.len() >= 2,
        det_fits(rows(m@)),
        determinant(rows(m@)) == 1 || determinant(rows(m@)) == -1,
        cofactors_fit(rows(m@)),
        forall|i: int, j: int|
            0 <= i < m@.len() && 0 <= j < m@.len() ==> T::fits(
                determinant(rows(m@)) * #[trigger] cofactor_spec(rows(m@), j, i),
            ),
    ensures
        r@.len() == m@.len(),
        is_square(rows(r@)),
        forall|i: int, j: int|
            0 <= i < r@.len() && 0 <= j < r@.len() ==> (#[trigger] r@[i]@[j]).val()
                == determinant(rows(m@)) * cofactor_spec(rows(m@), j, i),
{
    let d = det(m);
    let adj = adjugate(m);
    proof {
        assert forall|i: int, j: int|
            0 <= i < adj@.len() && 0 <= j < adj@[i]@.len() implies T::fits(
            d.val() * (#[trigger] adj@[i]@[j]).val(),
        ) by {
            assert(rows(adj@)[i].len() == adj@.len());
        }
    }
    let r = mul1(d, &adj);
    assert forall|i: int| 0 <= i < r@.len() implies #[trigger] rows(r@)[i].len() == r@.len() by {
        assert(rows(adj@)[i].len() == adj@.len());
    }
    assert forall|i: int, j: int|
        0 <= i < r@.len() && 0 <= j < r@.len() implies (#[trigger] r@[i]@[j]).val()
        == determinant(rows(m@)) * cofactor_spec(rows(m@), j, i) by {
        assert(rows(adj@)[i].len() == adj@.len());
    }
    r
}

/// Each entry of `b` multiplied by `a`.
pub fn mul1<T: Scalar>(a: T, b: &Vec<Vec<T>>) -> (r: Vec<Vec<T>>)
    requires
        forall|i: int, j: int|
            0 <= i < b@.len() && 0 <= j < b@[i]@.len() ==> T::fits(
                a.val() * (#[trigger] b@[i]@[j]).val(),
            ),
    ensures
        r@.len() == b@.len(),
        forall|i: int| 0 <= i < b@.len() ==> (#[trigger] r@[i])@.len() == b@[i]@.len(),
        forall|i: int, j: int|
            0 <= i < b@.len() && 0 <= j < b@[i]@.len() ==> (#[trigger] r@[i]@[j]).val() == a.val()
                * b@[i]@[j].val(),
{
    let mut r: Vec<Vec<T>> = Vec::new();
    let mut i: usize = 0;
    while i < b.len()
        invariant
            i <= b@.len(),
            r@.len() == i,
            forall|i: int, j: int|
                0 <= i < b@.len() && 0 <= j < b@[i]@.len() ==> T::fits(
                    a.val() * (#[trigger] b@[i]@[j]).val(),
                ),
            forall|p: int| 0 <= p < i ==> (#[trigger] r@[p])@.len() == b@[p]@.len(),
            forall|p: int, q: int|
                0 <= p < i && 0 <= q < b@[p]@.len() ==> (#[trigger] r@[p]@[q]).val() == a.val()
                    * b@[p]@[q].val(),
        decreases b@.len() - i,
    {
        let mut row: Vec<T> = Vec::new();
        let mut j: usize = 0;
        while j < b[i].len()
            invariant
                i < b@.len(),
                j <= b@[i as int]@.len(),
                row@.len() == j,
                forall|i: int, j: int|
                    0 <= i < b@.len() && 0 <= j < b@[i]@.len() ==> T::fits(
                        a.val() * (#[trigger] b@[i]@[j]).val(),
                    ),
                forall|q: int|
                    0 <= q < j ==> (#[trigger] row@[q]).val() == a.val() * b@[i as int]@[q].val(),
            decreases b@[i as int]@.len() - j,
        {
            row.push(a.mul(b[i][j]));
            j = j + 1;
        }
        r.push(row);
        i = i + 1;
    }
    r
}

/// A square matrix with `values` on its diagonal and zero elsewhere.
pub fn diagonal<T: Scalar>(values: &Vec<T>) -> (r: Vec<Vec<T>>)
    ensures
        r@.len() == values@.len(),
        is_square(rows(r@)),
        forall|i: int, j: int|
            0 <= i < r@.len() && 0 <= j < r@.len() ==> (#[trigger] r@[i]@[j]).val() == if i == j {
                values@[i].val()
            } else {
                0
            },
{
    let n = values.len();
    let mut r: Vec<Vec<T>> = Vec::new();
    let mut i: usize = 0;
    while i < n
        invariant
            n == values@.len(),
            i <= n,
            r@.len() == i,
            forall|p: int| 0 <= p < i ==> (#[trigger] r@[p])@.len() == n,
            forall|p: int, q: int|
                0 <= p < i && 0 <= q < n ==> (#[trigger] r@[p]@[q]).val() == if p == q {
                    values@[p].val()
                } else {
                    0
                },
        decreases n - i,
    {
        let mut row: Vec<T> = Vec::new();
        let mut j: usize = 0;
        while j < n
            invariant
                n == values@.len(),
                i < n,
                j <= n,
                row@.len() == j,
                forall|q: int|
                    0 <= q < j ==> (#[trigger] row@[q]).val() == if i == q {
                        values@[i as int].val()
                    } else {
                        0
                    },
            decreases n - j,
        {
            if i == j {
                row.push(values[i]);
            } else {
                row.push(T::zero());
            }
            j = j + 1;
        }
        r.push(row);
        i = i + 1;
    }
    r
}

/// The number of columns: the length of the first row, or zero without rows.
pub open spec fn cols_of<T>(m: Seq<Seq<T>>) -> nat {
    if m.len() == 0 {
        0
    } else {
        m[0].len()
    }
}

/// `a` has as many columns as `b` has rows, and `b` is rectangular.
pub open spec fn mul_shapes<T>(a: Seq<Seq<T>>, b: Seq<Seq<T>>) -> bool {
    &&& is_rect(a, b.len())
    &&& is_rect(b, cols_of(b))
}

/// Every product and partial sum of `a × b` lies in the range of `T`.
pub open spec fn mul_fits<T: Scalar>(a: Seq<Seq<T>>, b: Seq<Seq<T>>) -> bool {
    forall|i: int, j: int, k: int|
        0 <= i < a.len() && 0 <= j < cols_of(b) && 0 < k <= b.len() ==> T::fits(
            a[i][k - 1].val() * b[k - 1][j].val(),
        ) && T::fits(#[trigger] dot_upto(a[i], column(b, j), k))
}

fn mul_entry<T: Scalar>(a: &Vec<Vec<T>>, b: &Vec<Vec<T>>, i: usize, j: usize) -> (r: T)
    requires
        mul_shapes(rows(a@), rows(b@)),
        mul_fits(rows(a@), rows(b@)),
        i < a@.len(),
        j < cols_of(rows(b@)),
    ensures
        r.val() == dot_upto(rows(a@)[i as int], column(rows(b@), j as int), b@.len() as int),
{
    let ghost row = rows(a@)[i as int];
    let ghost col = column(rows(b@), j as int);
    let mut acc = T::zero();
    let mut k: usize = 0;
    while k < b.len()
        invariant
            mul_shapes(rows(a@), rows(b@)),
            mul_fits(rows(a@), rows(b@)),
            i < a@.len(),
            j < cols_of(rows(b@)),
            row == rows(a@)[i as int],
            col == column(rows(b@), j as int),
            k <= b@.len(),
            acc.val() == dot_upto(row, col, k as int),
        decreases b@.len() - k,
    {
        assert(T::fits(dot_upto(row, col, k + 1)));
        assert(rows(a@)[i as int].len() == b@.len());
        assert(rows(b@)[k as int].len() == cols_of(rows(b@)));
        let p = a[i][k].mul(b[k][j]);
        proof {
            T::lemma_scalar(acc, p);
        }
        acc = acc.add(p);
        k = k + 1;
    }
    acc
}

/// The product `a × b`: entry `(i, j)` is the sum, in order, of
/// `a[i][k] * b[k][j]` over `k`.
pub fn mul<T: Scalar>(a: &Vec<Vec<T>>, b: &Vec<Vec<T>>) -> (r: Vec<Vec<T>>)
    requires
        mul_shapes(rows(a@), rows(b@)),
        mul_fits(rows(a@), rows(b@)),
    ensures
        r@.len() == a@.len(),
        is_rect(rows(r@), cols_of(rows(b@))),
        forall|i: int, j: int|
            0 <= i < a@.len() && 0 <= j < cols_of(rows(b@)) ==> (#[trigger] r@[i]@[j]).val()
                == dot_upto(rows(a@)[i], column(rows(b@), j), b@.len() as int),
{
    let p: usize = if b.len() == 0 {
        0
    } else {
        b[0].len()
    };
    let mut r: Vec<Vec<T>> = Vec::new();
    let mut i: usize = 0;
    while i < a.len()
        invariant
            mul_shapes(rows(a@), rows(b@)),
            mul_fits(rows(a@), rows(b@)),
            p == cols_of(rows(b@)),
            i <= a@.len(),
            r@.len() == i,
            forall|q: int| 0 <= q < i ==> (#[trigger] r@[q])@.len() == p,
            forall|q: int, c: int|
                0 <= q < i && 0 <= c < p ==> (#[trigger] r@[q]@[c]).val() == dot_upto(
                    rows(a@)[q],
                    column(rows(b@), c),
                    b@.len() as int,
                ),
        decreases a@.len() - i,
    {
        let mut row: Vec<T> = Vec::new();
        let mut j: usize = 0;
        while j < p
            invariant
                mul_shapes(rows(a@), rows(b@)),
                mul_fits(rows(a@), rows(b@)),
                p == cols_of(rows(b@)),
                i < a@.len(),
                j <= p,
                row@.len() == j,
                forall|c: int|
                    0 <= c < j ==> (#[trigger] row@[c]).val() == dot_upto(
                        rows(a@)[i as int],
                        column(rows(b@), c),
                        b@.len() as int,
                    ),
            decreases p - j,
        {
            row.push(mul_entry(a, b, i, j));
            j = j + 1;
        }
        r.push(row);
        i = i + 1;
    }
    assert forall|q: int| 0 <= q < r@.len() implies #[trigger] rows(r@)[q].len() == p by {
        assert(r@[q]@.len() == p);
    }
    r
}

/// Every product and partial sum of `a × v` lies in the range of `T`.
pub open spec fn mulv_fits<T: Scalar>(a: Seq<Seq<T>>, v: Seq<T>) -> bool {
    forall|i: int, k: int|
        0 <= i < a.len() && 0 < k <= v.len() ==> T::fits(a[i][k - 1].val() * v[k - 1].val())
            && T::fits(#[trigger] dot_upto(a[i], v, k))
}

/// The product `a × v` of a matrix and a column vector.
pub fn mulv<T: Scalar>(a: &Vec<Vec<T>>, v: &Vec<T>) -> (r: Vec<T>)
    requires
        is_rect(rows(a@), v@.len()),
        mulv_fits(rows(a@), v@),
    ensures
        r@.len() == a@.len(),
        forall|i: int| 0 <= i < a@.len() ==> (#[trigger] r@[i]).val() == dot_upto(rows(a@)[i], v@, v@.len() as int),
{
    let mut r: Vec<T> = Vec::new();
    let mut i: usize = 0;
    while i < a.len()
        invariant
            is_rect(rows(a@), v@.len()),
            mulv_fits(rows(a@), v@),
            i <= a@.len(),
            r@.len() == i,
            forall|q: int| 0 <= q < i ==> (#[trigger] r@[q]).val() == dot_upto(rows(a@)[q], v@, v@.len() as int),
        decreases a@.len() - i,
    {
        let ghost row = rows(a@)[i as int];
        let mut acc = T::zero();
        let mut k: usize = 0;
        while k < v.len()
            invariant
                is_rect(rows(a@), v@.len()),
                mulv_fits(rows(a@), v@),
                i < a@.len(),
                row == rows(a@)[i as int],
                k <= v@.len(),
                acc.val() == dot_upto(row, v@, k as int),
            decreases v@.len() - k,
        {
            assert(T::fits(dot_upto(row, v@, k + 1)));
            assert(rows(a@)[i as int].len() == v@.len());
            let p = a[i][k].mul(v[k]);
            proof {
                T::lemma_scalar(acc, p);
            }
            acc = acc.add(p);
            k = k + 1;
        }
        r.push(acc);
        i = i + 1;
    }
    r
}

} // verus!
