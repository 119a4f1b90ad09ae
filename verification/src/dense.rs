//! Dense kernels: matrix-vector products per sample, and reductions over
//! the batch.
//!
//! A matrix of `m` rows and `n` columns is stored row by row: its element in
//! row `i` and column `k` is `a[i * n + k]`. A batch stores one vector per
//! sample, sample by sample.

use crate::layout::{cell_splits, index_splits, row_in_bounds};
use crate::scalar::{
    one_times_keeps, plus_zero_keeps, zero_plus_keeps, zero_times_clears, Scalar,
};
use vstd::prelude::*;

verus! {

/// The sum of `len` products, added onto zero one after the other: product
/// `t` multiplies `a[a_from + t * a_step]` by `x[x_from + t * x_step]`.
pub open spec fn dot<T: Scalar>(
    a: Seq<T>,
    a_from: int,
    a_step: int,
    x: Seq<T>,
    x_from: int,
    x_step: int,
    len: nat,
) -> T
    decreases len,
{
    if len == 0 {
        T::zero_spec()
    } else {
        dot(a, a_from, a_step, x, x_from, x_step, (len - 1) as nat).plus_spec(
            a[a_from + (len - 1) * a_step].times_spec(x[x_from + (len - 1) * x_step]),
        )
    }
}

/// `start` plus column `j` of the first `rows` rows of `values`, added one
/// row after the other.
pub open spec fn column_sum<T: Scalar>(
    start: T,
    values: Seq<T>,
    width: nat,
    j: int,
    rows: nat,
) -> T
    decreases rows,
{
    if rows == 0 {
        start
    } else {
        column_sum(start, values, width, j, (rows - 1) as nat).plus_spec(
            values[(rows - 1) * width + j],
        )
    }
}

/// `y = A * x` for every sample: element `i` of a sample's result is the
/// product of row `i` of `a` with the sample's vector.
pub open spec fn mat_vec<T: Scalar>(m: nat, n: nat, a: Seq<T>, x: Seq<T>, batch_size: nat) -> Seq<T> {
    Seq::new(
        batch_size * m,
        |i: int| dot(a, (i % (m as int)) * n, 1, x, (i / (m as int)) * n, 1, n),
    )
}

/// `x = A^T * y` for every sample: element `k` of a sample's result is the
/// product of column `k` of `a` with the sample's vector.
pub open spec fn mat_t_vec<T: Scalar>(m: nat, n: nat, a: Seq<T>, y: Seq<T>, batch_size: nat) -> Seq<T> {
    Seq::new(
        batch_size * n,
        |i: int| dot(a, i % (n as int), n as int, y, (i / (n as int)) * m, 1, m),
    )
}

/// `A + sum over the batch of y * x^T`: the element in row `i` and column
/// `k` grows by the sum over the samples of `y[i] * x[k]`.
pub open spec fn outer_sum<T: Scalar>(
    m: nat,
    n: nat,
    y: Seq<T>,
    x: Seq<T>,
    a: Seq<T>,
    batch_size: nat,
) -> Seq<T> {
    Seq::new(
        a.len(),
        |i: int|
            a[i].plus_spec(
                dot(y, i / (n as int), m as int, x, i % (n as int), n as int, batch_size),
            ),
    )
}

/// The sum over the batch of every column of `inp`.
pub open spec fn column_sums<T: Scalar>(batch_size: nat, out_size: nat, inp: Seq<T>) -> Seq<T> {
    Seq::new(out_size, |j: int| column_sum(T::zero_spec(), inp, out_size, j, batch_size))
}

/// `out` with `inp` added onto every sample.
pub open spec fn splat_sum<T: Scalar>(tensor_size: nat, inp: Seq<T>, out: Seq<T>) -> Seq<T> {
    Seq::new(out.len(), |i: int| out[i].plus_spec(inp[i % (tensor_size as int)]))
}

fn strided_dot<T: Scalar>(
    a: &[T],
    a_from: usize,
    a_step: usize,
    x: &[T],
    x_from: usize,
    x_step: usize,
    len: usize,
) -> (r: T)
    requires
        len > 0 ==> a_from + (len - 1) * a_step < a@.len(),
        len > 0 ==> x_from + (len - 1) * x_step < x@.len(),
    ensures
        r == dot(a@, a_from as int, a_step as int, x@, x_from as int, x_step as int, len as nat),
{
    let a_len = a.len();
    let x_len = x.len();
    let mut acc = T::zero();
    let mut t: usize = 0;
    while t < len
        invariant
            t <= len,
            a@.len() == a_len,
            x@.len() == x_len,
            len > 0 ==> a_from + (len - 1) * a_step < a@.len(),
            len > 0 ==> x_from + (len - 1) * x_step < x@.len(),
            acc == dot(a@, a_from as int, a_step as int, x@, x_from as int, x_step as int, t as nat),
        decreases len - t,
    {
        proof {
            assert(0 <= t * a_step <= (len - 1) * a_step) by (nonlinear_arith)
                requires
                    0 <= t <= len - 1,
                    0 <= a_step,
            ;
            assert(0 <= t * x_step <= (len - 1) * x_step) by (nonlinear_arith)
                requires
                    0 <= t <= len - 1,
                    0 <= x_step,
            ;
        }
        let ai = a_from + t * a_step;
        let xi = x_from + t * x_step;
        acc = acc.plus(a[ai].times(x[xi]));
        t += 1;
    }
    acc
}

/// Multiplies the `m` by `n` matrix `a` with the vector of each sample.
pub fn splat_mul_matrix_vector<T: Scalar>(
    m: usize,
    n: usize,
    a: &[T],
    x: &[T],
    y: &mut [T],
    batch_size: usize,
)
    requires
        a@.len() == m * n,
        x@.len() == batch_size * n,
        old(y)@.len() == batch_size * m,
    ensures
        final(y)@ == mat_vec(m as nat, n as nat, a@, x@, batch_size as nat),
{
    let ghost want = mat_vec(m as nat, n as nat, a@, x@, batch_size as nat);
    let a_total = a.len();
    let x_total = x.len();
    let y_total = y.len();
    let mut b: usize = 0;
    while b < batch_size
        invariant
            b <= batch_size,
            a@.len() == a_total,
            x@.len() == x_total,
            y@.len() == y_total,
            a@.len() == m * n,
            x@.len() == batch_size * n,
            y@.len() == batch_size * m,
            b * m <= y@.len(),
            want == mat_vec(m as nat, n as nat, a@, x@, batch_size as nat),
            want.len() == y@.len(),
            forall|i: int| 0 <= i < b * m ==> y@[i] == want[i],
        decreases batch_size - b,
    {
        proof {
            row_in_bounds(b as int, batch_size as int, n as int);
            row_in_bounds(b as int, batch_size as int, m as int);
        }
        let base = b * m;
        let from = b * n;
        let mut i: usize = 0;
        while i < m
            invariant
                i <= m,
                b < batch_size,
                a@.len() == a_total,
                x@.len() == x_total,
                y@.len() == y_total,
                a@.len() == m * n,
                base == b * m,
                from == b * n,
                base + m <= y@.len(),
                from + n <= x@.len(),
                want == mat_vec(m as nat, n as nat, a@, x@, batch_size as nat),
                want.len() == y@.len(),
                forall|c: int| 0 <= c < base + i ==> y@[c] == want[c],
            decreases m - i,
        {
            proof {
                row_in_bounds(i as int, m as int, n as int);
                cell_splits(b as int, i as int, m as int);
            }
            let value = strided_dot(a, i * n, 1, x, from, 1, n);
            y[base + i] = value;
            i += 1;
        }
        b += 1;
    }
}

/// Multiplies the transpose of the `m` by `n` matrix `a` with the vector of
/// each sample.
pub fn splat_mul_matrixt_vector<T: Scalar>(
    m: usize,
    n: usize,
    a: &[T],
    y: &[T],
    x: &mut [T],
    batch_size: usize,
)
    requires
        a@.len() == m * n,
        y@.len() == batch_size * m,
        old(x)@.len() == batch_size * n,
    ensures
        final(x)@ == mat_t_vec(m as nat, n as nat, a@, y@, batch_size as nat),
{
    let ghost want = mat_t_vec(m as nat, n as nat, a@, y@, batch_size as nat);
    let a_total = a.len();
    let x_total = x.len();
    let y_total = y.len();
    let mut b: usize = 0;
    while b < batch_size
        invariant
            b <= batch_size,
            a@.len() == a_total,
            x@.len() == x_total,
            y@.len() == y_total,
            a@.len() == m * n,
            y@.len() == batch_size * m,
            x@.len() == batch_size * n,
            b * n <= x@.len(),
            want == mat_t_vec(m as nat, n as nat, a@, y@, batch_size as nat),
            want.len() == x@.len(),
            forall|i: int| 0 <= i < b * n ==> x@[i] == want[i],
        decreases batch_size - b,
    {
        proof {
            row_in_bounds(b as int, batch_size as int, n as int);
            row_in_bounds(b as int, batch_size as int, m as int);
        }
        let base = b * n;
        let from = b * m;
        let mut k: usize = 0;
        while k < n
            invariant
                k <= n,
                b < batch_size,
                a@.len() == a_total,
                x@.len() == x_total,
                y@.len() == y_total,
                a@.len() == m * n,
                base == b * n,
                from == b * m,
                base + n <= x@.len(),
                from + m <= y@.len(),
                want == mat_t_vec(m as nat, n as nat, a@, y@, batch_size as nat),
                want.len() == x@.len(),
                forall|c: int| 0 <= c < base + k ==> x@[c] == want[c],
            decreases n - k,
        {
            proof {
                if m > 0 {
                    row_in_bounds(m - 1, m as int, n as int);
                }
                cell_splits(b as int, k as int, n as int);
            }
            let value = strided_dot(a, k, n, y, from, 1, m);
            x[base + k] = value;
            k += 1;
        }
        b += 1;
    }
}

/// Adds onto the `m` by `n` matrix `a` the sum over the batch of the outer
/// products `y * x^T`.
pub fn reduce_add_mul_vector_vectort<T: Scalar>(
    m: usize,
    n: usize,
    y: &[T],
    x: &[T],
    a: &mut [T],
    batch_size: usize,
)
    requires
        old(a)@.len() == m * n,
        y@.len() == batch_size * m,
        x@.len() == batch_size * n,
    ensures
        final(a)@ == outer_sum(m as nat, n as nat, y@, x@, old(a)@, batch_size as nat),
{
    let ghost want = outer_sum(m as nat, n as nat, y@, x@, old(a)@, batch_size as nat);
    let a_total = a.len();
    let x_total = x.len();
    let y_total = y.len();
    let mut i: usize = 0;
    while i < m
        invariant
            i <= m,
            a@.len() == a_total,
            x@.len() == x_total,
            y@.len() == y_total,
            a@.len() == m * n,
            old(a)@.len() == m * n,
            y@.len() == batch_size * m,
            x@.len() == batch_size * n,
            i * n <= a@.len(),
            want == outer_sum(m as nat, n as nat, y@, x@, old(a)@, batch_size as nat),
            want.len() == a@.len(),
            forall|c: int| 0 <= c < i * n ==> a@[c] == want[c],
            forall|c: int| i * n <= c < a@.len() ==> a@[c] == old(a)@[c],
        decreases m - i,
    {
        proof {
            row_in_bounds(i as int, m as int, n as int);
        }
        let base = i * n;
        let mut k: usize = 0;
        while k < n
            invariant
                k <= n,
                i < m,
                a@.len() == a_total,
                x@.len() == x_total,
                y@.len() == y_total,
                old(a)@.len() == m * n,
                y@.len() == batch_size * m,
                x@.len() == batch_size * n,
                base == i * n,
                base + n <= a@.len(),
                want == outer_sum(m as nat, n as nat, y@, x@, old(a)@, batch_size as nat),
                want.len() == a@.len(),
                forall|c: int| 0 <= c < base + k ==> a@[c] == want[c],
                forall|c: int| base + k <= c < a@.len() ==> a@[c] == old(a)@[c],
            decreases n - k,
        {
            proof {
                if batch_size > 0 {
                    row_in_bounds(batch_size - 1, batch_size as int, m as int);
                    row_in_bounds(batch_size - 1, batch_size as int, n as int);
                }
                cell_splits(i as int, k as int, n as int);
            }
            let sum = strided_dot(y, i, m, x, k, n, batch_size);
            let value = a[base + k].plus(sum);
            a[base + k] = value;
            k += 1;
        }
        i += 1;
    }
}

/// Writes to each `out[j]` the sum over the batch of column `j` of `inp`.
/// The first buffer takes no part in the result.
pub fn reduce_add<T: Scalar>(
    unused: &[T],
    batch_size: usize,
    out_size: usize,
    inp: &[T],
    out: &mut [T],
)
    requires
        inp@.len() == batch_size * out_size,
        old(out)@.len() == out_size,
    ensures
        final(out)@ == column_sums(batch_size as nat, out_size as nat, inp@),
{
    let inp_total = inp.len();
    let mut j: usize = 0;
    while j < out_size
        invariant
            j <= out_size,
            inp@.len() == inp_total,
            inp@.len() == batch_size * out_size,
            out@.len() == out_size,
            forall|c: int|
                0 <= c < j ==> out@[c] == #[trigger] column_sum(
                    T::zero_spec(),
                    inp@,
                    out_size as nat,
                    c,
                    batch_size as nat,
                ),
        decreases out_size - j,
    {
        let mut acc = T::zero();
        let mut b: usize = 0;
        while b < batch_size
            invariant
                b <= batch_size,
                j < out_size,
                inp@.len() == inp_total,
                inp@.len() == batch_size * out_size,
                acc == column_sum(T::zero_spec(), inp@, out_size as nat, j as int, b as nat),
            decreases batch_size - b,
        {
            proof {
                row_in_bounds(b as int, batch_size as int, out_size as int);
            }
            acc = acc.plus(inp[b * out_size + j]);
            b += 1;
        }
        out[j] = acc;
        j += 1;
    }
}

/// Adds the `tensor_size` elements of `inp` onto every sample of `out`.
pub fn splat_add<T: Scalar>(batch_size: usize, tensor_size: usize, inp: &[T], out: &mut [T])
    requires
        inp@.len() == tensor_size,
        old(out)@.len() == batch_size * tensor_size,
    ensures
        final(out)@ == splat_sum(tensor_size as nat, inp@, old(out)@),
{
    let ghost want = splat_sum(tensor_size as nat, inp@, old(out)@);
    let out_total = out.len();
    let mut b: usize = 0;
    while b < batch_size
        invariant
            b <= batch_size,
            inp@.len() == tensor_size,
            out@.len() == out_total,
            out@.len() == batch_size * tensor_size,
            old(out)@.len() == out@.len(),
            b * tensor_size <= out@.len(),
            want == splat_sum(tensor_size as nat, inp@, old(out)@),
            want.len() == out@.len(),
            forall|c: int| 0 <= c < b * tensor_size ==> out@[c] == want[c],
            forall|c: int| b * tensor_size <= c < out@.len() ==> out@[c] == old(out)@[c],
        decreases batch_size - b,
    {
        proof {
            row_in_bounds(b as int, batch_size as int, tensor_size as int);
        }
        let base = b * tensor_size;
        let mut j: usize = 0;
        while j < tensor_size
            invariant
                j <= tensor_size,
                inp@.len() == tensor_size,
                out@.len() == out_total,
                old(out)@.len() == out@.len(),
                base == b * tensor_size,
                base + tensor_size <= out@.len(),
                want == splat_sum(tensor_size as nat, inp@, old(out)@),
                want.len() == out@.len(),
                forall|c: int| 0 <= c < base + j ==> out@[c] == want[c],
                forall|c: int| base + j <= c < out@.len() ==> out@[c] == old(out)@[c],
            decreases tensor_size - j,
        {
            proof {
                cell_splits(b as int, j as int, tensor_size as int);
            }
            let value = out[base + j].plus(inp[j]);
            out[base + j] = value;
            j += 1;
        }
        b += 1;
    }
}

proof fn dot_of_zero<T: Scalar>(
    y: Seq<T>,
    i: int,
    m: nat,
    x: Seq<T>,
    k: int,
    n: nat,
    batch_size: nat,
    len: nat,
)
    requires
        len <= batch_size,
        0 <= i < m,
        0 <= k < n,
        y.len() == batch_size * m,
        x.len() == batch_size * n,
        plus_zero_keeps(T::zero_spec()),
        forall|c: int| 0 <= c < y.len() ==> y[c] == T::zero_spec(),
        forall|c: int| 0 <= c < x.len() ==> zero_times_clears(#[trigger] x[c]),
    ensures
        dot(y, i, m as int, x, k, n as int, len) == T::zero_spec(),
    decreases len,
{
    if len != 0 {
        dot_of_zero(y, i, m, x, k, n, batch_size, (len - 1) as nat);
        row_in_bounds(len - 1, batch_size as int, m as int);
        row_in_bounds(len - 1, batch_size as int, n as int);
    }
}

/// Without an error signal the weights do not drift: where every `y` is
/// zero, adding the outer products leaves `a` as it was, for every `a` and
/// `x` whose sums and products with zero are the plain ones.
pub proof fn outer_sum_of_zero<T: Scalar>(
    m: nat,
    n: nat,
    y: Seq<T>,
    x: Seq<T>,
    a: Seq<T>,
    batch_size: nat,
)
    requires
        a.len() == m * n,
        y.len() == batch_size * m,
        x.len() == batch_size * n,
        plus_zero_keeps(T::zero_spec()),
        forall|c: int| 0 <= c < y.len() ==> y[c] == T::zero_spec(),
        forall|c: int| 0 <= c < x.len() ==> zero_times_clears(#[trigger] x[c]),
        forall|c: int| 0 <= c < a.len() ==> plus_zero_keeps(#[trigger] a[c]),
    ensures
        outer_sum(m, n, y, x, a, batch_size) == a,
{
    let sum = outer_sum(m, n, y, x, a, batch_size);
    assert forall|c: int| 0 <= c < a.len() implies sum[c] == a[c] by {
        index_splits(c, m as int, n as int);
        dot_of_zero(y, c / (n as int), m, x, c % (n as int), n, batch_size, batch_size);
    }
}

/// The `n` by `n` matrix with one on its diagonal and zero everywhere else.
pub open spec fn identity<T: Scalar>(n: nat) -> Seq<T> {
    Seq::new(
        n * n,
        |i: int|
            if i / (n as int) == i % (n as int) {
                T::one_spec()
            } else {
                T::zero_spec()
            },
    )
}

proof fn identity_row_dot<T: Scalar>(n: nat, x: Seq<T>, from: int, i: int, len: nat)
    requires
        0 <= i < n,
        len <= n,
        0 <= from,
        from + n <= x.len(),
        plus_zero_keeps(T::zero_spec()),
        forall|c: int| 0 <= c < x.len() ==> one_times_keeps(#[trigger] x[c]),
        forall|c: int| 0 <= c < x.len() ==> zero_times_clears(#[trigger] x[c]),
        forall|c: int| 0 <= c < x.len() ==> zero_plus_keeps(#[trigger] x[c]),
        forall|c: int| 0 <= c < x.len() ==> plus_zero_keeps(#[trigger] x[c]),
    ensures
        dot(identity::<T>(n), i * n, 1, x, from, 1, len) == (if len <= i {
            T::zero_spec()
        } else {
            x[from + i]
        }),
    decreases len,
{
    if len != 0 {
        let t = len - 1;
        identity_row_dot(n, x, from, i, t as nat);
        row_in_bounds(i, n as int, n as int);
        cell_splits(i, t, n as int);
    }
}

/// Multiplying by the identity gives every sample's vector back, for every
/// `x` whose sums and products with the units are the plain ones.
pub proof fn mat_vec_of_identity<T: Scalar>(n: nat, x: Seq<T>, batch_size: nat)
    requires
        x.len() == batch_size * n,
        plus_zero_keeps(T::zero_spec()),
        forall|c: int| 0 <= c < x.len() ==> one_times_keeps(#[trigger] x[c]),
        forall|c: int| 0 <= c < x.len() ==> zero_times_clears(#[trigger] x[c]),
        forall|c: int| 0 <= c < x.len() ==> zero_plus_keeps(#[trigger] x[c]),
        forall|c: int| 0 <= c < x.len() ==> plus_zero_keeps(#[trigger] x[c]),
    ensures
        mat_vec(n, n, identity::<T>(n), x, batch_size) == x,
{
    let y = mat_vec(n, n, identity::<T>(n), x, batch_size);
    assert forall|c: int| 0 <= c < x.len() implies y[c] == x[c] by {
        index_splits(c, batch_size as int, n as int);
        let b = c / (n as int);
        let i = c % (n as int);
        row_in_bounds(b, batch_size as int, n as int);
        identity_row_dot(n, x, b * n, i, n);
    }
}

} // verus!
