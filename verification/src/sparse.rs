//! The sparse affine layer: `output = W * input + b`, where the input of a
//! sample is given by its active features alone.
//!
//! The weights of one feature are contiguous: the weight from feature `f`
//! to output `j` is `weights[f * output_size + j]`.

use crate::dense::column_sum;
use crate::feat::{active_len, active_len_is, active_len_means, sample_active, sample_row, Feat};
use crate::layout::{cell_splits, row_in_bounds};
use crate::scalar::{add_times, Scalar};
use vstd::prelude::*;

verus! {

/// `start` plus the weights from each of `feats` to output `j`, added one
/// after the other in the order of `feats`.
pub open spec fn gather<T: Scalar>(
    start: T,
    weights: Seq<T>,
    feats: Seq<Feat>,
    output_size: nat,
    j: int,
) -> T
    decreases feats.len(),
{
    if feats.len() == 0 {
        start
    } else {
        gather(start, weights, feats.drop_last(), output_size, j).plus_spec(
            weights[feats.last().index * output_size + j],
        )
    }
}

/// Whether every active feature of the first `batch_size` samples has its
/// weights inside a buffer of `weights_len` elements.
pub open spec fn features_fit(
    inputs: Seq<Feat>,
    batch_size: nat,
    width: nat,
    output_size: nat,
    weights_len: nat,
) -> bool {
    forall|s: int, k: int|
        0 <= s < batch_size && 0 <= k < sample_active(inputs, width, s).len() ==> (
        #[trigger] sample_active(inputs, width, s)[k]).index * output_size + output_size
            <= weights_len
}

/// The outputs of the layer: for each sample, the biases plus the weights
/// of the sample's active features.
pub open spec fn sparse_forward<T: Scalar>(
    batch_size: nat,
    width: nat,
    output_size: nat,
    weights: Seq<T>,
    biases: Seq<T>,
    inputs: Seq<Feat>,
) -> Seq<T> {
    Seq::new(
        batch_size * output_size,
        |i: int|
            gather(
                biases[i % (output_size as int)],
                weights,
                sample_active(inputs, width, i / (output_size as int)),
                output_size,
                i % (output_size as int),
            ),
    )
}

/// Checks that every active feature has its weights inside a buffer of
/// `weights_len` elements.
pub fn check_features(
    batch_size: usize,
    max_active_inputs: usize,
    output_size: usize,
    inputs: &[Feat],
    weights_len: usize,
) -> (ok: bool)
    requires
        inputs@.len() == batch_size * max_active_inputs,
    ensures
        ok == features_fit(
            inputs@,
            batch_size as nat,
            max_active_inputs as nat,
            output_size as nat,
            weights_len as nat,
        ),
{
    let ghost width = max_active_inputs as nat;
    let total = inputs.len();
    let mut s: usize = 0;
    while s < batch_size
        invariant
            s <= batch_size,
            width == max_active_inputs,
            inputs@.len() == batch_size * max_active_inputs,
            inputs@.len() == total,
            features_fit(inputs@, s as nat, width, output_size as nat, weights_len as nat),
        decreases batch_size - s,
    {
        proof {
            row_in_bounds(s as int, batch_size as int, max_active_inputs as int);
        }
        let ghost row = sample_row(inputs@, width, s as int);
        let start = s * max_active_inputs;
        let mut k: usize = 0;
        while k < max_active_inputs && !inputs[start + k].is_end()
            invariant
                k <= max_active_inputs,
                s < batch_size,
                width == max_active_inputs,
                start == s * max_active_inputs,
                start + max_active_inputs <= inputs@.len(),
                inputs@.len() == total,
                row == sample_row(inputs@, width, s as int),
                forall|m: int| 0 <= m < k ==> !(#[trigger] row[m]).is_end_spec(),
                forall|m: int|
                    0 <= m < k ==> (#[trigger] row[m]).index * output_size + output_size
                        <= weights_len,
                features_fit(inputs@, s as nat, width, output_size as nat, weights_len as nat),
            decreases max_active_inputs - k,
        {
            let f = inputs[start + k].index as u64;
            let fits = match f.checked_mul(output_size as u64) {
                None => false,
                Some(base) => match base.checked_add(output_size as u64) {
                    None => false,
                    Some(end) => end <= weights_len as u64,
                },
            };
            if !fits {
                proof {
                    active_len_means(row);
                    assert(sample_active(inputs@, width, s as int)[k as int] == row[k as int]);
                }
                return false;
            }
            k += 1;
        }
        proof {
            active_len_is(row, k as nat);
            assert forall|s2: int, m: int|
                0 <= s2 < s + 1 && 0 <= m < sample_active(inputs@, width, s2).len() implies (
            #[trigger] sample_active(inputs@, width, s2)[m]).index * output_size + output_size
                <= weights_len by {}
        }
        s += 1;
    }
    true
}

/// Whether some active feature of the first `batch_size` samples has the
/// last of its weights right before element `end`.
pub open spec fn reaches(
    inputs: Seq<Feat>,
    batch_size: nat,
    width: nat,
    output_size: nat,
    end: int,
) -> bool {
    exists|s: int, k: int|
        0 <= s < batch_size && 0 <= k < sample_active(inputs, width, s).len() && (
        #[trigger] sample_active(inputs, width, s)[k]).index * output_size + output_size == end
}

/// Whether the weights of some active feature of the first `batch_size`
/// samples end past every buffer that can be addressed.
pub open spec fn out_of_reach(
    inputs: Seq<Feat>,
    batch_size: nat,
    width: nat,
    output_size: nat,
) -> bool {
    exists|s: int, k: int|
        0 <= s < batch_size && 0 <= k < sample_active(inputs, width, s).len() && (
        #[trigger] sample_active(inputs, width, s)[k]).index * output_size + output_size
            > usize::MAX
}

/// The length of the shortest weight buffer that holds the weights of every
/// active feature: nothing where no feature is active, and no length at all
/// where some feature lies past every buffer.
pub fn weights_reach(
    batch_size: usize,
    max_active_inputs: usize,
    output_size: usize,
    inputs: &[Feat],
) -> (r: Option<usize>)
    requires
        inputs@.len() == batch_size * max_active_inputs,
    ensures
        r matches Some(n) ==> {
            &&& features_fit(
                inputs@,
                batch_size as nat,
                max_active_inputs as nat,
                output_size as nat,
                n as nat,
            )
            &&& n == 0 || reaches(
                inputs@,
                batch_size as nat,
                max_active_inputs as nat,
                output_size as nat,
                n as int,
            )
        },
        r is None <==> out_of_reach(
            inputs@,
            batch_size as nat,
            max_active_inputs as nat,
            output_size as nat,
        ),
{
    let ghost width = max_active_inputs as nat;
    let ghost osize = output_size as nat;
    let total = inputs.len();
    let mut need: usize = 0;
    let mut s: usize = 0;
    while s < batch_size
        invariant
            s <= batch_size,
            width == max_active_inputs,
            osize == output_size,
            inputs@.len() == batch_size * max_active_inputs,
            inputs@.len() == total,
            features_fit(inputs@, s as nat, width, osize, need as nat),
            need == 0 || reaches(inputs@, s as nat, width, osize, need as int),
        decreases batch_size - s,
    {
        proof {
            row_in_bounds(s as int, batch_size as int, max_active_inputs as int);
        }
        let ghost row = sample_row(inputs@, width, s as int);
        let start = s * max_active_inputs;
        let mut k: usize = 0;
        while k < max_active_inputs && !inputs[start + k].is_end()
            invariant
                k <= max_active_inputs,
                s < batch_size,
                width == max_active_inputs,
                osize == output_size,
                start == s * max_active_inputs,
                start + max_active_inputs <= inputs@.len(),
                inputs@.len() == total,
                row == sample_row(inputs@, width, s as int),
                forall|m: int| 0 <= m < k ==> !(#[trigger] row[m]).is_end_spec(),
                forall|m: int|
                    0 <= m < k ==> (#[trigger] row[m]).index * output_size + output_size <= need,
                features_fit(inputs@, s as nat, width, osize, need as nat),
                need == 0 || reaches(inputs@, (s + 1) as nat, width, osize, need as int),
            decreases max_active_inputs - k,
        {
            proof {
                active_len_means(row);
                assert(sample_active(inputs@, width, s as int)[k as int] == row[k as int]);
            }
            let f = inputs[start + k].index as u64;
            let end = match f.checked_mul(output_size as u64) {
                None => None,
                Some(base) => base.checked_add(output_size as u64),
            };
            let end = match end {
                Some(end) if end <= usize::MAX as u64 => end as usize,
                _ => {
                    return None;
                },
            };
            if end > need {
                need = end;
            }
            k += 1;
        }
        proof {
            active_len_is(row, k as nat);
            assert forall|s2: int, m: int|
                0 <= s2 < s + 1 && 0 <= m < sample_active(inputs@, width, s2).len() implies (
            #[trigger] sample_active(inputs@, width, s2)[m]).index * output_size + output_size
                <= need by {}
        }
        s += 1;
    }
    Some(need)
}

/// Writes to each sample's outputs the biases plus the weights of the
/// sample's active features, visiting only those features.
pub fn sparse_affine_forward<T: Scalar>(
    batch_size: usize,
    max_input_size: usize,
    output_size: usize,
    weights: &[T],
    biases: &[T],
    inputs: &[Feat],
    outputs: &mut [T],
)
    requires
        biases@.len() == output_size,
        inputs@.len() == batch_size * max_input_size,
        old(outputs)@.len() == batch_size * output_size,
        features_fit(
            inputs@,
            batch_size as nat,
            max_input_size as nat,
            output_size as nat,
            weights@.len(),
        ),
    ensures
        final(outputs)@ == sparse_forward(
            batch_size as nat,
            max_input_size as nat,
            output_size as nat,
            weights@,
            biases@,
            inputs@,
        ),
{
    let ghost width = max_input_size as nat;
    let ghost osize = output_size as nat;
    let ghost want = sparse_forward(
        batch_size as nat,
        width,
        osize,
        weights@,
        biases@,
        inputs@,
    );
    let total = inputs.len();
    let out_total = outputs.len();
    let weights_total = weights.len();
    let mut s: usize = 0;
    while s < batch_size
        invariant
            s <= batch_size,
            s * output_size <= outputs@.len(),
            inputs@.len() == total,
            outputs@.len() == out_total,
            weights@.len() == weights_total,
            width == max_input_size,
            osize == output_size,
            biases@.len() == output_size,
            inputs@.len() == batch_size * max_input_size,
            outputs@.len() == batch_size * output_size,
            features_fit(inputs@, batch_size as nat, width, osize, weights@.len()),
            want == sparse_forward(batch_size as nat, width, osize, weights@, biases@, inputs@),
            want.len() == outputs@.len(),
            forall|i: int| 0 <= i < s * output_size ==> outputs@[i] == want[i],
        decreases batch_size - s,
    {
        proof {
            row_in_bounds(s as int, batch_size as int, max_input_size as int);
            row_in_bounds(s as int, batch_size as int, output_size as int);
        }
        let ghost row = sample_row(inputs@, width, s as int);
        let start = s * max_input_size;
        let base = s * output_size;
        let mut j: usize = 0;
        while j < output_size
            invariant
                j <= output_size,
                base == s * output_size,
                base + output_size <= outputs@.len(),
                outputs@.len() == out_total,
                biases@.len() == output_size,
                want.len() == outputs@.len(),
                forall|i: int| 0 <= i < base ==> outputs@[i] == want[i],
                forall|c: int| 0 <= c < j ==> outputs@[base + c] == #[trigger] biases@[c],
            decreases output_size - j,
        {
            outputs[base + j] = biases[j];
            j += 1;
        }
        let mut k: usize = 0;
        while k < max_input_size && !inputs[start + k].is_end()
            invariant
                k <= max_input_size,
                s < batch_size,
                width == max_input_size,
                osize == output_size,
                start == s * max_input_size,
                start + max_input_size <= inputs@.len(),
                inputs@.len() == total,
                outputs@.len() == out_total,
                weights@.len() == weights_total,
                base == s * output_size,
                base + output_size <= outputs@.len(),
                biases@.len() == output_size,
                row == sample_row(inputs@, width, s as int),
                features_fit(inputs@, batch_size as nat, width, osize, weights@.len()),
                forall|m: int| 0 <= m < k ==> !(#[trigger] row[m]).is_end_spec(),
                want.len() == outputs@.len(),
                forall|i: int| 0 <= i < base ==> outputs@[i] == want[i],
                forall|c: int|
                    0 <= c < output_size ==> outputs@[base + c] == #[trigger] gather(
                        biases@[c],
                        weights@,
                        row.take(k as int),
                        osize,
                        c,
                    ),
            decreases max_input_size - k,
        {
            let feat = inputs[start + k];
            proof {
                active_len_means(row);
                assert(sample_active(inputs@, width, s as int)[k as int] == row[k as int]);
                assert(0 <= feat.index * output_size) by (nonlinear_arith)
                    requires
                        0 <= feat.index,
                        0 <= output_size,
                ;
            }
            let from = (feat.index as usize) * output_size;
            let mut j: usize = 0;
            while j < output_size
                invariant
                    j <= output_size,
                    osize == output_size,
                    k < row.len(),
                    base + output_size <= outputs@.len(),
                    outputs@.len() == out_total,
                    weights@.len() == weights_total,
                    from == feat.index * output_size,
                    from + output_size <= weights@.len(),
                    biases@.len() == output_size,
                    row.take(k + 1).drop_last() == row.take(k as int),
                    row.take(k + 1).last() == feat,
                    want.len() == outputs@.len(),
                    forall|i: int| 0 <= i < base ==> outputs@[i] == want[i],
                    forall|c: int|
                        0 <= c < j ==> outputs@[base + c] == #[trigger] gather(
                            biases@[c],
                            weights@,
                            row.take(k + 1),
                            osize,
                            c,
                        ),
                    forall|c: int|
                        j <= c < output_size ==> outputs@[base + c] == #[trigger] gather(
                            biases@[c],
                            weights@,
                            row.take(k as int),
                            osize,
                            c,
                        ),
                decreases output_size - j,
            {
                assert(outputs@[base + j] == gather(
                    biases@[j as int],
                    weights@,
                    row.take(k as int),
                    osize,
                    j as int,
                ));
                let sum = outputs[base + j].plus(weights[from + j]);
                outputs[base + j] = sum;
                j += 1;
            }
            k += 1;
        }
        proof {
            active_len_is(row, k as nat);
            assert forall|i: int| 0 <= i < (s + 1) * output_size implies outputs@[i] == want[i] by {
                if i >= base {
                    let c = i - base;
                    cell_splits(s as int, c, output_size as int);
                }
            }
        }
        s += 1;
    }
}

/// What one sample's output `i` adds to the weight gradient: its error plus
/// the regularisation term `ft_reg * output[i]`.
pub open spec fn weight_error<T: Scalar>(errors: Seq<T>, output: Seq<T>, ft_reg: T, i: int) -> T {
    errors[i].plus_spec(ft_reg.times_spec(output[i]))
}

/// [`weight_error`] of every output of the batch.
pub open spec fn weight_errors<T: Scalar>(errors: Seq<T>, output: Seq<T>, ft_reg: T) -> Seq<T> {
    Seq::new(errors.len(), |i: int| weight_error(errors, output, ft_reg, i))
}

/// `grad` with `row` added onto the elements from `base` on.
pub open spec fn add_at<T: Scalar>(grad: Seq<T>, base: int, row: Seq<T>) -> Seq<T> {
    Seq::new(
        grad.len(),
        |i: int|
            if base <= i < base + row.len() {
                grad[i].plus_spec(row[i - base])
            } else {
                grad[i]
            },
    )
}

/// `grad` with `row` added onto the weights of each of `feats`, one feature
/// after the other.
pub open spec fn scatter_row<T: Scalar>(grad: Seq<T>, feats: Seq<Feat>, row: Seq<T>) -> Seq<T>
    decreases feats.len(),
{
    if feats.len() == 0 {
        grad
    } else {
        add_at(scatter_row(grad, feats.drop_last(), row), feats.last().index * row.len(), row)
    }
}

/// The row of sample `sample` in a buffer of `output_size` values per sample.
pub open spec fn value_row<T>(values: Seq<T>, output_size: nat, sample: int) -> Seq<T> {
    values.subrange(sample * output_size, sample * output_size + output_size)
}

/// `grad` after the first `samples` samples have scattered their rows of
/// `values` onto the weights of their active features, one sample after the
/// other.
pub open spec fn scatter_batch<T: Scalar>(
    grad: Seq<T>,
    inputs: Seq<Feat>,
    width: nat,
    output_size: nat,
    values: Seq<T>,
    samples: nat,
) -> Seq<T>
    decreases samples,
{
    if samples == 0 {
        grad
    } else {
        scatter_row(
            scatter_batch(grad, inputs, width, output_size, values, (samples - 1) as nat),
            sample_active(inputs, width, samples - 1),
            value_row(values, output_size, samples - 1),
        )
    }
}

/// `grad` with the errors of the first `samples` samples added column by
/// column.
pub open spec fn bias_gradient<T: Scalar>(
    grad: Seq<T>,
    errors: Seq<T>,
    samples: nat,
) -> Seq<T> {
    Seq::new(grad.len(), |j: int| column_sum(grad[j], errors, grad.len(), j, samples))
}

/// Accumulates the gradients of the layer over a batch.
///
/// Each sample adds its errors onto the bias gradient, and adds its errors
/// plus `ft_reg` times its outputs onto the weight gradient of each of its
/// active features. Samples are taken in order, and within a sample its
/// features in order; no other weight is touched.
pub fn sparse_affine_backward<T: Scalar>(
    batch_size: usize,
    max_active_inputs: usize,
    input_size: usize,
    output_size: usize,
    weights_grad: &mut [T],
    biases_grad: &mut [T],
    inputs: &[Feat],
    errors: &[T],
    output: &[T],
    ft_reg: T,
)
    requires
        old(weights_grad)@.len() == input_size * output_size,
        old(biases_grad)@.len() == output_size,
        inputs@.len() == batch_size * max_active_inputs,
        errors@.len() == batch_size * output_size,
        output@.len() == batch_size * output_size,
        features_fit(
            inputs@,
            batch_size as nat,
            max_active_inputs as nat,
            output_size as nat,
            old(weights_grad)@.len(),
        ),
    ensures
        final(weights_grad)@ == scatter_batch(
            old(weights_grad)@,
            inputs@,
            max_active_inputs as nat,
            output_size as nat,
            weight_errors(errors@, output@, ft_reg),
            batch_size as nat,
        ),
        final(biases_grad)@ == bias_gradient(old(biases_grad)@, errors@, batch_size as nat),
{
    let ghost width = max_active_inputs as nat;
    let ghost osize = output_size as nat;
    let ghost values = weight_errors(errors@, output@, ft_reg);
    let total = inputs.len();
    let errors_total = errors.len();
    let weights_total = weights_grad.len();
    let mut s: usize = 0;
    while s < batch_size
        invariant
            s <= batch_size,
            width == max_active_inputs,
            osize == output_size,
            inputs@.len() == total,
            errors@.len() == errors_total,
            weights_grad@.len() == weights_total,
            weights_total == old(weights_grad)@.len(),
            biases_grad@.len() == output_size,
            old(biases_grad)@.len() == output_size,
            inputs@.len() == batch_size * max_active_inputs,
            errors@.len() == batch_size * output_size,
            output@.len() == batch_size * output_size,
            values == weight_errors(errors@, output@, ft_reg),
            features_fit(inputs@, batch_size as nat, width, osize, weights_total as nat),
            weights_grad@ == scatter_batch(
                old(weights_grad)@,
                inputs@,
                width,
                osize,
                values,
                s as nat,
            ),
            forall|c: int|
                0 <= c < output_size ==> biases_grad@[c] == #[trigger] column_sum(
                    old(biases_grad)@[c],
                    errors@,
                    osize,
                    c,
                    s as nat,
                ),
        decreases batch_size - s,
    {
        proof {
            row_in_bounds(s as int, batch_size as int, max_active_inputs as int);
            row_in_bounds(s as int, batch_size as int, output_size as int);
        }
        let ghost row = sample_row(inputs@, width, s as int);
        let ghost vrow = value_row(values, osize, s as int);
        let ghost sample_start = weights_grad@;
        let ghost done = (s + 1) as nat;
        let start = s * max_active_inputs;
        let base = s * output_size;
        let mut j: usize = 0;
        while j < output_size
            invariant
                j <= output_size,
                osize == output_size,
                done == s + 1,
                base == s * output_size,
                base + output_size <= errors@.len(),
                errors@.len() == errors_total,
                biases_grad@.len() == output_size,
                old(biases_grad)@.len() == output_size,
                forall|c: int|
                    0 <= c < j ==> biases_grad@[c] == #[trigger] column_sum(
                        old(biases_grad)@[c],
                        errors@,
                        osize,
                        c,
                        done,
                    ),
                forall|c: int|
                    j <= c < output_size ==> biases_grad@[c] == #[trigger] column_sum(
                        old(biases_grad)@[c],
                        errors@,
                        osize,
                        c,
                        s as nat,
                    ),
            decreases output_size - j,
        {
            assert(biases_grad@[j as int] == column_sum(
                old(biases_grad)@[j as int],
                errors@,
                osize,
                j as int,
                s as nat,
            ));
            let sum = biases_grad[j].plus(errors[base + j]);
            biases_grad[j] = sum;
            j += 1;
        }
        let mut k: usize = 0;
        while k < max_active_inputs && !inputs[start + k].is_end()
            invariant
                k <= max_active_inputs,
                s < batch_size,
                width == max_active_inputs,
                osize == output_size,
                start == s * max_active_inputs,
                start + max_active_inputs <= inputs@.len(),
                inputs@.len() == total,
                errors@.len() == errors_total,
                weights_grad@.len() == weights_total,
                errors@.len() == output@.len(),
                base == s * output_size,
                base + output_size <= errors@.len(),
                row == sample_row(inputs@, width, s as int),
                values == weight_errors(errors@, output@, ft_reg),
                vrow == value_row(values, osize, s as int),
                features_fit(inputs@, batch_size as nat, width, osize, weights_total as nat),
                forall|m: int| 0 <= m < k ==> !(#[trigger] row[m]).is_end_spec(),
                weights_grad@ == scatter_row(sample_start, row.take(k as int), vrow),
                biases_grad@.len() == output_size,
                old(biases_grad)@.len() == output_size,
                forall|c: int|
                    0 <= c < output_size ==> biases_grad@[c] == #[trigger] column_sum(
                        old(biases_grad)@[c],
                        errors@,
                        osize,
                        c,
                        done,
                    ),
            decreases max_active_inputs - k,
        {
            let feat = inputs[start + k];
            proof {
                active_len_means(row);
                assert(sample_active(inputs@, width, s as int)[k as int] == row[k as int]);
                assert(0 <= feat.index * output_size) by (nonlinear_arith)
                    requires
                        0 <= feat.index,
                        0 <= output_size,
                ;
                assert(row.take(k + 1).drop_last() =~= row.take(k as int));
            }
            let ghost before = weights_grad@;
            let from = (feat.index as usize) * output_size;
            let mut j: usize = 0;
            while j < output_size
                invariant
                    j <= output_size,
                    osize == output_size,
                    from + output_size <= weights_total,
                    weights_grad@.len() == weights_total,
                    before.len() == weights_total,
                    base + output_size <= errors@.len(),
                    errors@.len() == errors_total,
                    errors@.len() == output@.len(),
                    base == s * output_size,
                    values == weight_errors(errors@, output@, ft_reg),
                    vrow == value_row(values, osize, s as int),
                    biases_grad@.len() == output_size,
                    old(biases_grad)@.len() == output_size,
                    forall|c: int|
                        0 <= c < output_size ==> biases_grad@[c] == #[trigger] column_sum(
                            old(biases_grad)@[c],
                            errors@,
                            osize,
                            c,
                            done,
                        ),
                    forall|i: int|
                        0 <= i < weights_total ==> weights_grad@[i] == (if from <= i < from + j {
                            before[i].plus_spec(vrow[i - from])
                        } else {
                            before[i]
                        }),
                decreases output_size - j,
            {
                let value = errors[base + j].plus(ft_reg.times(output[base + j]));
                let sum = weights_grad[from + j].plus(value);
                weights_grad[from + j] = sum;
                j += 1;
            }
            k += 1;
        }
        proof {
            active_len_is(row, k as nat);
        }
        s += 1;
    }
}

/// [`sparse_affine_forward`], with a path of its own for a layer with a
/// single output per sample: there one sum per sample is kept, and one
/// weight per active feature is read.
pub fn single_sparse_affine_forward<T: Scalar>(
    batch_size: usize,
    max_active_inputs: usize,
    output_size: usize,
    weights: &[T],
    biases: &[T],
    inputs: &[Feat],
    outputs: &mut [T],
)
    requires
        biases@.len() == output_size,
        inputs@.len() == batch_size * max_active_inputs,
        old(outputs)@.len() == batch_size * output_size,
        features_fit(
            inputs@,
            batch_size as nat,
            max_active_inputs as nat,
            output_size as nat,
            weights@.len(),
        ),
    ensures
        final(outputs)@ == sparse_forward(
            batch_size as nat,
            max_active_inputs as nat,
            output_size as nat,
            weights@,
            biases@,
            inputs@,
        ),
{
    if output_size != 1 {
        sparse_affine_forward(
            batch_size,
            max_active_inputs,
            output_size,
            weights,
            biases,
            inputs,
            outputs,
        );
        return ;
    }
    let ghost width = max_active_inputs as nat;
    let ghost want = sparse_forward(batch_size as nat, width, 1, weights@, biases@, inputs@);
    let total = inputs.len();
    let weights_total = weights.len();
    assert(batch_size * output_size == batch_size) by (nonlinear_arith)
        requires
            output_size == 1,
    ;
    let mut s: usize = 0;
    while s < batch_size
        invariant
            s <= batch_size,
            width == max_active_inputs,
            biases@.len() == 1,
            inputs@.len() == total,
            weights@.len() == weights_total,
            inputs@.len() == batch_size * max_active_inputs,
            outputs@.len() == batch_size,
            features_fit(inputs@, batch_size as nat, width, 1, weights@.len()),
            want == sparse_forward(batch_size as nat, width, 1, weights@, biases@, inputs@),
            want.len() == outputs@.len(),
            forall|i: int| 0 <= i < s ==> outputs@[i] == want[i],
        decreases batch_size - s,
    {
        proof {
            row_in_bounds(s as int, batch_size as int, max_active_inputs as int);
        }
        let ghost row = sample_row(inputs@, width, s as int);
        let start = s * max_active_inputs;
        let mut acc = biases[0];
        let mut k: usize = 0;
        while k < max_active_inputs && !inputs[start + k].is_end()
            invariant
                k <= max_active_inputs,
                s < batch_size,
                width == max_active_inputs,
                biases@.len() == 1,
                start == s * max_active_inputs,
                start + max_active_inputs <= inputs@.len(),
                inputs@.len() == total,
                weights@.len() == weights_total,
                row == sample_row(inputs@, width, s as int),
                features_fit(inputs@, batch_size as nat, width, 1, weights@.len()),
                forall|m: int| 0 <= m < k ==> !(#[trigger] row[m]).is_end_spec(),
                acc == gather(biases@[0], weights@, row.take(k as int), 1, 0),
            decreases max_active_inputs - k,
        {
            let feat = inputs[start + k];
            proof {
                active_len_means(row);
                assert(sample_active(inputs@, width, s as int)[k as int] == row[k as int]);
                assert(row.take(k + 1).drop_last() =~= row.take(k as int));
            }
            acc = acc.plus(weights[feat.index as usize]);
            k += 1;
        }
        proof {
            active_len_is(row, k as nat);
        }
        outputs[s] = acc;
        s += 1;
    }
}

/// [`sparse_affine_backward`], with a path of its own for a layer with a
/// single output per sample: there each sample has one error, which goes
/// to the one bias and to one weight per active feature.
pub fn single_sparse_affine_backward<T: Scalar>(
    batch_size: usize,
    max_active_inputs: usize,
    input_size: usize,
    output_size: usize,
    weights_grad: &mut [T],
    biases_grad: &mut [T],
    inputs: &[Feat],
    errors: &[T],
    output: &[T],
    ft_reg: T,
)
    requires
        old(weights_grad)@.len() == input_size * output_size,
        old(biases_grad)@.len() == output_size,
        inputs@.len() == batch_size * max_active_inputs,
        errors@.len() == batch_size * output_size,
        output@.len() == batch_size * output_size,
        features_fit(
            inputs@,
            batch_size as nat,
            max_active_inputs as nat,
            output_size as nat,
            old(weights_grad)@.len(),
        ),
    ensures
        final(weights_grad)@ == scatter_batch(
            old(weights_grad)@,
            inputs@,
            max_active_inputs as nat,
            output_size as nat,
            weight_errors(errors@, output@, ft_reg),
            batch_size as nat,
        ),
        final(biases_grad)@ == bias_gradient(old(biases_grad)@, errors@, batch_size as nat),
{
    if output_size != 1 {
        sparse_affine_backward(
            batch_size,
            max_active_inputs,
            input_size,
            output_size,
            weights_grad,
            biases_grad,
            inputs,
            errors,
            output,
            ft_reg,
        );
        return ;
    }
    let ghost width = max_active_inputs as nat;
    let ghost values = weight_errors(errors@, output@, ft_reg);
    let total = inputs.len();
    let weights_total = weights_grad.len();
    assert(batch_size * output_size == batch_size) by (nonlinear_arith)
        requires
            output_size == 1,
    ;
    let mut s: usize = 0;
    while s < batch_size
        invariant
            s <= batch_size,
            width == max_active_inputs,
            inputs@.len() == total,
            weights_grad@.len() == weights_total,
            weights_total == old(weights_grad)@.len(),
            biases_grad@.len() == 1,
            old(biases_grad)@.len() == 1,
            inputs@.len() == batch_size * max_active_inputs,
            errors@.len() == batch_size,
            output@.len() == batch_size,
            values == weight_errors(errors@, output@, ft_reg),
            features_fit(inputs@, batch_size as nat, width, 1, weights_total as nat),
            weights_grad@ == scatter_batch(old(weights_grad)@, inputs@, width, 1, values, s as nat),
            biases_grad@[0] == column_sum(old(biases_grad)@[0], errors@, 1, 0, s as nat),
        decreases batch_size - s,
    {
        proof {
            row_in_bounds(s as int, batch_size as int, max_active_inputs as int);
        }
        let ghost row = sample_row(inputs@, width, s as int);
        let ghost vrow = value_row(values, 1, s as int);
        let ghost sample_start = weights_grad@;
        let ghost done = (s + 1) as nat;
        let start = s * max_active_inputs;
        let error = errors[s];
        let value = error.plus(ft_reg.times(output[s]));
        let sum = biases_grad[0].plus(error);
        biases_grad[0] = sum;
        let mut k: usize = 0;
        while k < max_active_inputs && !inputs[start + k].is_end()
            invariant
                k <= max_active_inputs,
                s < batch_size,
                width == max_active_inputs,
                start == s * max_active_inputs,
                start + max_active_inputs <= inputs@.len(),
                inputs@.len() == total,
                weights_grad@.len() == weights_total,
                row == sample_row(inputs@, width, s as int),
                vrow.len() == 1,
                vrow[0] == value,
                features_fit(inputs@, batch_size as nat, width, 1, weights_total as nat),
                forall|m: int| 0 <= m < k ==> !(#[trigger] row[m]).is_end_spec(),
                weights_grad@ == scatter_row(sample_start, row.take(k as int), vrow),
                biases_grad@.len() == 1,
                biases_grad@[0] == column_sum(old(biases_grad)@[0], errors@, 1, 0, done),
            decreases max_active_inputs - k,
        {
            let feat = inputs[start + k];
            proof {
                active_len_means(row);
                assert(sample_active(inputs@, width, s as int)[k as int] == row[k as int]);
                assert(row.take(k + 1).drop_last() =~= row.take(k as int));
            }
            let ghost before = weights_grad@;
            let at = feat.index as usize;
            let sum = weights_grad[at].plus(value);
            weights_grad[at] = sum;
            assert(weights_grad@ =~= add_at(before, feat.index * 1, vrow));
            k += 1;
        }
        proof {
            active_len_is(row, k as nat);
        }
        s += 1;
    }
}

/// How often `index` occurs among `feats`.
pub open spec fn count_of(feats: Seq<Feat>, index: int) -> nat
    decreases feats.len(),
{
    if feats.len() == 0 {
        0
    } else {
        count_of(feats.drop_last(), index) + if feats.last().index == index {
            1nat
        } else {
            0nat
        }
    }
}

/// How often the input `index` is active in the first `samples` samples.
pub open spec fn activations(inputs: Seq<Feat>, width: nat, index: int, samples: nat) -> nat
    decreases samples,
{
    if samples == 0 {
        0
    } else {
        activations(inputs, width, index, (samples - 1) as nat) + count_of(
            sample_active(inputs, width, samples - 1),
            index,
        )
    }
}

/// A sample without active features gets exactly the biases.
pub proof fn forward_without_features<T: Scalar>(
    batch_size: nat,
    width: nat,
    output_size: nat,
    weights: Seq<T>,
    biases: Seq<T>,
    inputs: Seq<Feat>,
    sample: int,
)
    requires
        0 <= sample < batch_size,
        biases.len() == output_size,
        sample_active(inputs, width, sample).len() == 0,
    ensures
        value_row(
            sparse_forward(batch_size, width, output_size, weights, biases, inputs),
            output_size,
            sample,
        ) == biases,
{
    let all = sparse_forward(batch_size, width, output_size, weights, biases, inputs);
    let row = value_row(all, output_size, sample);
    row_in_bounds(sample, batch_size as int, output_size as int);
    assert forall|c: int| 0 <= c < output_size implies row[c] == biases[c] by {
        cell_splits(sample, c, output_size as int);
    }
}

/// With the same error `e` for every output of every sample, the bias
/// gradient grows by `e` once per sample.
pub proof fn bias_gradient_of_constant<T: Scalar>(
    grad: Seq<T>,
    errors: Seq<T>,
    samples: nat,
    e: T,
    j: int,
)
    requires
        0 <= j < grad.len(),
        errors.len() == samples * grad.len(),
        forall|i: int| 0 <= i < errors.len() ==> errors[i] == e,
    ensures
        bias_gradient(grad, errors, samples)[j] == add_times(grad[j], e, samples),
{
    column_sum_of_constant(grad[j], errors, grad.len(), j, samples, samples, e);
}

proof fn column_sum_of_constant<T: Scalar>(
    start: T,
    values: Seq<T>,
    width: nat,
    j: int,
    rows: nat,
    upto: nat,
    e: T,
)
    requires
        0 <= j < width,
        upto <= rows,
        values.len() == rows * width,
        forall|i: int| 0 <= i < values.len() ==> values[i] == e,
    ensures
        column_sum(start, values, width, j, upto) == add_times(start, e, upto),
    decreases upto,
{
    if upto != 0 {
        column_sum_of_constant(start, values, width, j, rows, (upto - 1) as nat, e);
        row_in_bounds(upto - 1, rows as int, width as int);
    }
}

proof fn scatter_row_of_constant<T: Scalar>(
    grad: Seq<T>,
    feats: Seq<Feat>,
    row: Seq<T>,
    v: T,
    index: int,
    j: int,
)
    requires
        0 <= index,
        0 <= j < row.len(),
        index * row.len() + row.len() <= grad.len(),
        forall|c: int| 0 <= c < row.len() ==> row[c] == v,
        forall|k: int|
            0 <= k < feats.len() ==> (#[trigger] feats[k]).index * row.len() + row.len()
                <= grad.len(),
    ensures
        scatter_row(grad, feats, row).len() == grad.len(),
        scatter_row(grad, feats, row)[index * row.len() + j] == add_times(
            grad[index * row.len() + j],
            v,
            count_of(feats, index),
        ),
    decreases feats.len(),
{
    if feats.len() != 0 {
        let rest = feats.drop_last();
        assert forall|k: int| 0 <= k < rest.len() implies (#[trigger] rest[k]).index * row.len()
            + row.len() <= grad.len() by {}
        scatter_row_of_constant(grad, rest, row, v, index, j);
        let other = feats.last().index as int;
        let n = row.len() as int;
        assert(0 <= index * n) by (nonlinear_arith)
            requires
                0 <= index,
                0 <= n,
        ;
        if other < index {
            assert(other * n + n <= index * n) by (nonlinear_arith)
                requires
                    other + 1 <= index,
                    0 <= n,
            ;
        } else if other > index {
            assert(index * n + n <= other * n) by (nonlinear_arith)
                requires
                    index + 1 <= other,
                    0 <= n,
            ;
        }
    }
}

/// With the same value `v` scattered for every output of every sample, the
/// weight gradient from input `index` to output `j` grows by `v` once for
/// every time the input is active in the batch.
pub proof fn scatter_batch_of_constant<T: Scalar>(
    grad: Seq<T>,
    inputs: Seq<Feat>,
    width: nat,
    output_size: nat,
    values: Seq<T>,
    samples: nat,
    v: T,
    index: int,
    j: int,
)
    requires
        0 <= index,
        0 <= j < output_size,
        index * output_size + output_size <= grad.len(),
        values.len() == samples * output_size,
        forall|i: int| 0 <= i < values.len() ==> values[i] == v,
        features_fit(inputs, samples, width, output_size, grad.len()),
    ensures
        scatter_batch(grad, inputs, width, output_size, values, samples).len() == grad.len(),
        scatter_batch(grad, inputs, width, output_size, values, samples)[index * output_size + j]
            == add_times(
            grad[index * output_size + j],
            v,
            activations(inputs, width, index, samples),
        ),
{
    scatter_prefix_of_constant(grad, inputs, width, output_size, values, samples, samples, v, index, j);
}

proof fn scatter_prefix_of_constant<T: Scalar>(
    grad: Seq<T>,
    inputs: Seq<Feat>,
    width: nat,
    output_size: nat,
    values: Seq<T>,
    samples: nat,
    upto: nat,
    v: T,
    index: int,
    j: int,
)
    requires
        upto <= samples,
        0 <= index,
        0 <= j < output_size,
        index * output_size + output_size <= grad.len(),
        values.len() == samples * output_size,
        forall|i: int| 0 <= i < values.len() ==> values[i] == v,
        features_fit(inputs, samples, width, output_size, grad.len()),
    ensures
        scatter_batch(grad, inputs, width, output_size, values, upto).len() == grad.len(),
        scatter_batch(grad, inputs, width, output_size, values, upto)[index * output_size + j]
            == add_times(
            grad[index * output_size + j],
            v,
            activations(inputs, width, index, upto),
        ),
    decreases upto,
{
    if upto != 0 {
        let s = upto - 1;
        scatter_prefix_of_constant(
            grad,
            inputs,
            width,
            output_size,
            values,
            samples,
            s as nat,
            v,
            index,
            j,
        );
        let before = scatter_batch(grad, inputs, width, output_size, values, s as nat);
        let feats = sample_active(inputs, width, s);
        let row = value_row(values, output_size, s);
        row_in_bounds(s, samples as int, output_size as int);
        assert forall|k: int| 0 <= k < feats.len() implies (#[trigger] feats[k]).index * row.len()
            + row.len() <= before.len() by {}
        scatter_row_of_constant(before, feats, row, v, index, j);
        add_times_joins(
            grad[index * output_size + j],
            v,
            activations(inputs, width, index, s as nat),
            count_of(feats, index),
        );
    }
}

/// Adding `m` times and then `n` times is adding `m + n` times.
pub proof fn add_times_joins<T: Scalar>(start: T, value: T, m: nat, n: nat)
    ensures
        add_times(add_times(start, value, m), value, n) == add_times(start, value, m + n),
    decreases n,
{
    if n != 0 {
        add_times_joins(start, value, m, (n - 1) as nat);
    }
}

/// With a constant error `e` whose regularisation term adds nothing, a
/// backward pass over the batch adds `e` to each bias gradient once per
/// sample, and to each weight gradient once for every time its input is
/// active.
pub proof fn backward_of_constant_error<T: Scalar>(
    weights_grad: Seq<T>,
    biases_grad: Seq<T>,
    inputs: Seq<Feat>,
    batch_size: nat,
    width: nat,
    output_size: nat,
    errors: Seq<T>,
    output: Seq<T>,
    ft_reg: T,
    e: T,
    index: int,
    j: int,
)
    requires
        0 <= index,
        0 <= j < output_size,
        index * output_size + output_size <= weights_grad.len(),
        biases_grad.len() == output_size,
        errors.len() == batch_size * output_size,
        features_fit(inputs, batch_size, width, output_size, weights_grad.len()),
        forall|i: int| 0 <= i < errors.len() ==> errors[i] == e,
        forall|i: int|
            0 <= i < errors.len() ==> #[trigger] weight_error(errors, output, ft_reg, i) == e,
    ensures
        bias_gradient(biases_grad, errors, batch_size)[j] == add_times(
            biases_grad[j],
            e,
            batch_size,
        ),
        scatter_batch(
            weights_grad,
            inputs,
            width,
            output_size,
            weight_errors(errors, output, ft_reg),
            batch_size,
        )[index * output_size + j] == add_times(
            weights_grad[index * output_size + j],
            e,
            activations(inputs, width, index, batch_size),
        ),
{
    bias_gradient_of_constant(biases_grad, errors, batch_size, e, j);
    scatter_batch_of_constant(
        weights_grad,
        inputs,
        width,
        output_size,
        weight_errors(errors, output, ft_reg),
        batch_size,
        e,
        index,
        j,
    );
}

/// No buffer shorter than the one an active feature reaches holds the
/// weights of every active feature.
pub proof fn reach_is_least(
    inputs: Seq<Feat>,
    batch_size: nat,
    width: nat,
    output_size: nat,
    end: int,
    shorter: nat,
)
    requires
        reaches(inputs, batch_size, width, output_size, end),
        shorter < end,
    ensures
        !features_fit(inputs, batch_size, width, output_size, shorter),
{
    let (s, k) = choose|s: int, k: int|
        0 <= s < batch_size && 0 <= k < sample_active(inputs, width, s).len() && (
        #[trigger] sample_active(inputs, width, s)[k]).index * output_size + output_size == end;
}

} // verus!
