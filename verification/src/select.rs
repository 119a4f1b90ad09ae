//! Output-bucket gating.
//!
//! Every sample holds `input_size` values, read as consecutive groups of
//! `output_size` values, and names one group by its bucket. Selecting copies
//! that group out; the gradient goes back into the same group, with zero in
//! every other place.

use crate::layout::{cell_splits, index_splits, row_in_bounds};
use crate::scalar::Scalar;
use vstd::prelude::*;

verus! {

/// Whether the group that each of the first `batch_size` buckets names lies
/// inside a sample.
pub open spec fn buckets_fit(
    buckets: Seq<u8>,
    batch_size: nat,
    input_size: nat,
    output_size: nat,
) -> bool {
    forall|b: int|
        0 <= b < batch_size ==> (#[trigger] buckets[b]) * output_size + output_size <= input_size
}

/// The selected group of every sample.
pub open spec fn selected<T>(
    batch_size: nat,
    input_size: nat,
    output_size: nat,
    buckets: Seq<u8>,
    inp: Seq<T>,
) -> Seq<T> {
    Seq::new(
        batch_size * output_size,
        |i: int|
            inp[(i / (output_size as int)) * input_size + buckets[i / (output_size as int)]
                * output_size + i % (output_size as int)],
    )
}

/// The gradient of every sample put back into its selected group, and zero
/// everywhere else.
pub open spec fn scattered<T: Scalar>(
    batch_size: nat,
    input_size: nat,
    output_size: nat,
    buckets: Seq<u8>,
    grad: Seq<T>,
) -> Seq<T> {
    Seq::new(
        batch_size * input_size,
        |i: int|
            {
                let b = i / (input_size as int);
                let c = i % (input_size as int);
                let from = buckets[b] * output_size;
                if from <= c < from + output_size {
                    grad[b * output_size + (c - from)]
                } else {
                    T::zero_spec()
                }
            },
    )
}

/// Checks that the group of every bucket lies inside a sample.
pub fn check_buckets(
    batch_size: usize,
    input_size: usize,
    output_size: usize,
    buckets: &[u8],
) -> (ok: bool)
    requires
        buckets@.len() == batch_size,
    ensures
        ok == buckets_fit(buckets@, batch_size as nat, input_size as nat, output_size as nat),
{
    let mut b: usize = 0;
    while b < batch_size
        invariant
            b <= batch_size,
            buckets@.len() == batch_size,
            buckets_fit(buckets@, b as nat, input_size as nat, output_size as nat),
        decreases batch_size - b,
    {
        let bucket = buckets[b] as u64;
        let fits = match bucket.checked_mul(output_size as u64) {
            None => false,
            Some(from) => match from.checked_add(output_size as u64) {
                None => false,
                Some(end) => end <= input_size as u64,
            },
        };
        if !fits {
            return false;
        }
        b += 1;
    }
    true
}

/// Copies the selected group of every sample of `inp` to `out`.
pub fn select<T: Copy>(
    batch_size: usize,
    input_size: usize,
    output_size: usize,
    buckets: &[u8],
    inp: &[T],
    out: &mut [T],
)
    requires
        buckets@.len() == batch_size,
        inp@.len() == batch_size * input_size,
        old(out)@.len() == batch_size * output_size,
        buckets_fit(buckets@, batch_size as nat, input_size as nat, output_size as nat),
    ensures
        final(out)@ == selected(
            batch_size as nat,
            input_size as nat,
            output_size as nat,
            buckets@,
            inp@,
        ),
{
    let ghost want = selected(
        batch_size as nat,
        input_size as nat,
        output_size as nat,
        buckets@,
        inp@,
    );
    let inp_total = inp.len();
    let out_total = out.len();
    let mut b: usize = 0;
    while b < batch_size
        invariant
            b <= batch_size,
            buckets@.len() == batch_size,
            inp@.len() == inp_total,
            out@.len() == out_total,
            inp@.len() == batch_size * input_size,
            out@.len() == batch_size * output_size,
            b * output_size <= out@.len(),
            buckets_fit(buckets@, batch_size as nat, input_size as nat, output_size as nat),
            want == selected(
                batch_size as nat,
                input_size as nat,
                output_size as nat,
                buckets@,
                inp@,
            ),
            want.len() == out@.len(),
            forall|i: int| 0 <= i < b * output_size ==> out@[i] == want[i],
        decreases batch_size - b,
    {
        proof {
            row_in_bounds(b as int, batch_size as int, input_size as int);
            row_in_bounds(b as int, batch_size as int, output_size as int);
            assert(0 <= buckets@[b as int] * output_size) by (nonlinear_arith)
                requires
                    0 <= buckets@[b as int],
                    0 <= output_size,
            ;
        }
        let base = b * output_size;
        let from = b * input_size + (buckets[b] as usize) * output_size;
        let mut j: usize = 0;
        while j < output_size
            invariant
                j <= output_size,
                b < batch_size,
                buckets@.len() == batch_size,
                inp@.len() == inp_total,
                out@.len() == out_total,
                base == b * output_size,
                from == b * input_size + buckets@[b as int] * output_size,
                base + output_size <= out@.len(),
                from + output_size <= inp@.len(),
                want == selected(
                    batch_size as nat,
                    input_size as nat,
                    output_size as nat,
                    buckets@,
                    inp@,
                ),
                want.len() == out@.len(),
                forall|i: int| 0 <= i < base + j ==> out@[i] == want[i],
            decreases output_size - j,
        {
            proof {
                cell_splits(b as int, j as int, output_size as int);
            }
            out[base + j] = inp[from + j];
            j += 1;
        }
        b += 1;
    }
}

/// Writes to every sample of `out` the sample's gradient from `inp` in the
/// place of its selected group, and zero in every other place.
pub fn select_backprop<T: Scalar>(
    batch_size: usize,
    input_size: usize,
    output_size: usize,
    buckets: &[u8],
    inp: &[T],
    out: &mut [T],
)
    requires
        buckets@.len() == batch_size,
        inp@.len() == batch_size * output_size,
        old(out)@.len() == batch_size * input_size,
        buckets_fit(buckets@, batch_size as nat, input_size as nat, output_size as nat),
    ensures
        final(out)@ == scattered(
            batch_size as nat,
            input_size as nat,
            output_size as nat,
            buckets@,
            inp@,
        ),
{
    let ghost want = scattered(
        batch_size as nat,
        input_size as nat,
        output_size as nat,
        buckets@,
        inp@,
    );
    let inp_total = inp.len();
    let out_total = out.len();
    let mut b: usize = 0;
    while b < batch_size
        invariant
            b <= batch_size,
            buckets@.len() == batch_size,
            inp@.len() == inp_total,
            out@.len() == out_total,
            inp@.len() == batch_size * output_size,
            out@.len() == batch_size * input_size,
            b * input_size <= out@.len(),
            buckets_fit(buckets@, batch_size as nat, input_size as nat, output_size as nat),
            want == scattered(
                batch_size as nat,
                input_size as nat,
                output_size as nat,
                buckets@,
                inp@,
            ),
            want.len() == out@.len(),
            forall|i: int| 0 <= i < b * input_size ==> out@[i] == want[i],
        decreases batch_size - b,
    {
        proof {
            row_in_bounds(b as int, batch_size as int, input_size as int);
            row_in_bounds(b as int, batch_size as int, output_size as int);
            assert(0 <= buckets@[b as int] * output_size) by (nonlinear_arith)
                requires
                    0 <= buckets@[b as int],
                    0 <= output_size,
            ;
        }
        let base = b * input_size;
        let source = b * output_size;
        let from = (buckets[b] as usize) * output_size;
        let mut c: usize = 0;
        while c < input_size
            invariant
                c <= input_size,
                b < batch_size,
                buckets@.len() == batch_size,
                inp@.len() == inp_total,
                out@.len() == out_total,
                base == b * input_size,
                source == b * output_size,
                from == buckets@[b as int] * output_size,
                from + output_size <= input_size,
                base + input_size <= out@.len(),
                source + output_size <= inp@.len(),
                want == scattered(
                    batch_size as nat,
                    input_size as nat,
                    output_size as nat,
                    buckets@,
                    inp@,
                ),
                want.len() == out@.len(),
                forall|i: int| 0 <= i < base + c ==> out@[i] == want[i],
            decreases input_size - c,
        {
            proof {
                cell_splits(b as int, c as int, input_size as int);
            }
            let value = if from <= c && c - from < output_size {
                inp[source + (c - from)]
            } else {
                T::zero()
            };
            out[base + c] = value;
            c += 1;
        }
        b += 1;
    }
}

/// Selecting from a scattered gradient gives the gradient back.
pub proof fn select_undoes_scatter<T: Scalar>(
    batch_size: nat,
    input_size: nat,
    output_size: nat,
    buckets: Seq<u8>,
    grad: Seq<T>,
)
    requires
        grad.len() == batch_size * output_size,
        buckets_fit(buckets, batch_size, input_size, output_size),
    ensures
        selected(
            batch_size,
            input_size,
            output_size,
            buckets,
            scattered(batch_size, input_size, output_size, buckets, grad),
        ) == grad,
{
    let large = scattered(batch_size, input_size, output_size, buckets, grad);
    let back = selected(batch_size, input_size, output_size, buckets, large);
    assert forall|i: int| 0 <= i < grad.len() implies back[i] == grad[i] by {
        index_splits(i, batch_size as int, output_size as int);
        let b = i / (output_size as int);
        let j = i % (output_size as int);
        let from = buckets[b] * output_size;
        assert(0 <= from) by (nonlinear_arith)
            requires
                from == buckets[b] * output_size,
                0 <= buckets[b],
                0 <= output_size,
        ;
        row_in_bounds(b, batch_size as int, input_size as int);
        cell_splits(b, from + j, input_size as int);
    }
}

} // verus!
