//! What the laws of the kernels say of buffers of `i64`, whose arithmetic
//! keeps every unit law: there they hold of every buffer.

use crate::activation::{relu_all, relu_gradient, relu_gradient_gates};
use crate::dense::{identity, mat_vec, mat_vec_of_identity, outer_sum, outer_sum_of_zero};
use crate::feat::Feat;
use crate::scalar::{
    integer_count, integer_unit_laws, one_times_keeps, plus_zero_keeps, times_one_keeps,
    times_zero_clears, zero_plus_keeps, zero_times_clears,
};
use crate::sparse::{
    activations, backward_of_constant_error, bias_gradient, features_fit, scatter_batch,
    weight_error, weight_errors,
};
use vstd::prelude::*;

verus! {

/// The gradient taken after `relu` is the incoming gradient where the input
/// was positive, and zero everywhere else.
pub proof fn integer_relu_gradient(inp: Seq<i64>, grad: Seq<i64>)
    requires
        inp.len() == grad.len(),
    ensures
        forall|i: int|
            0 <= i < inp.len() ==> #[trigger] relu_gradient(relu_all(inp), grad)[i] == (if 0
                < inp[i] {
                grad[i]
            } else {
                0
            }),
{
    assert forall|i: int| 0 <= i < grad.len() implies times_one_keeps(
        #[trigger] grad[i],
    ) && times_zero_clears(grad[i]) by {
        integer_unit_laws(grad[i]);
    }
    relu_gradient_gates(inp, grad);
    assert forall|i: int| 0 <= i < inp.len() implies #[trigger] relu_gradient(
        relu_all(inp),
        grad,
    )[i] == (if 0 < inp[i] {
        grad[i]
    } else {
        0
    }) by {
        assert(relu_gradient(relu_all(inp), grad)[i] == relu_gradient(inp, grad)[i]);
    }
}

/// With every error one and no regularisation, a backward pass from zero
/// gradients leaves the number of samples in each bias gradient, and in
/// each weight gradient the number of times its input is active.
pub proof fn integer_backward_counts(
    weights_grad: Seq<i64>,
    biases_grad: Seq<i64>,
    inputs: Seq<Feat>,
    batch_size: nat,
    width: nat,
    output_size: nat,
    errors: Seq<i64>,
    output: Seq<i64>,
    index: int,
    j: int,
)
    requires
        0 <= index,
        0 <= j < output_size,
        index * output_size + output_size <= weights_grad.len(),
        biases_grad.len() == output_size,
        errors.len() == batch_size * output_size,
        features_fit(inputs, batch_size, width, output_size, weights_grad.len()),
        forall|i: int| 0 <= i < errors.len() ==> errors[i] == 1,
        biases_grad[j] == 0,
        weights_grad[index * output_size + j] == 0,
        batch_size <= i64::MAX,
        activations(inputs, width, index, batch_size) <= i64::MAX,
    ensures
        bias_gradient(biases_grad, errors, batch_size)[j] == batch_size,
        scatter_batch(
            weights_grad,
            inputs,
            width,
            output_size,
            weight_errors(errors, output, 0i64),
            batch_size,
        )[index * output_size + j] == activations(inputs, width, index, batch_size),
{
    assert forall|i: int| 0 <= i < errors.len() implies #[trigger] weight_error(
        errors,
        output,
        0i64,
        i,
    ) == 1i64 by {
        integer_unit_laws(output[i]);
        integer_unit_laws(errors[i]);
    }
    backward_of_constant_error(
        weights_grad,
        biases_grad,
        inputs,
        batch_size,
        width,
        output_size,
        errors,
        output,
        0i64,
        1i64,
        index,
        j,
    );
    integer_count(batch_size);
    integer_count(activations(inputs, width, index, batch_size));
}

/// Where every `y` is zero, adding the outer products leaves `a` as it was.
pub proof fn integer_outer_sum_of_zero(
    m: nat,
    n: nat,
    y: Seq<i64>,
    x: Seq<i64>,
    a: Seq<i64>,
    batch_size: nat,
)
    requires
        a.len() == m * n,
        y.len() == batch_size * m,
        x.len() == batch_size * n,
        forall|c: int| 0 <= c < y.len() ==> y[c] == 0,
    ensures
        outer_sum(m, n, y, x, a, batch_size) == a,
{
    integer_unit_laws(0);
    assert forall|c: int| 0 <= c < x.len() implies zero_times_clears(
        #[trigger] x[c],
    ) by {
        integer_unit_laws(x[c]);
    }
    assert forall|c: int| 0 <= c < a.len() implies plus_zero_keeps(
        #[trigger] a[c],
    ) by {
        integer_unit_laws(a[c]);
    }
    outer_sum_of_zero(m, n, y, x, a, batch_size);
}

/// Multiplying by the identity gives every sample's vector back.
pub proof fn integer_mat_vec_of_identity(n: nat, x: Seq<i64>, batch_size: nat)
    requires
        x.len() == batch_size * n,
    ensures
        mat_vec(n, n, identity::<i64>(n), x, batch_size) == x,
{
    integer_unit_laws(0);
    assert forall|c: int| 0 <= c < x.len() implies one_times_keeps(#[trigger] x[c])
        && zero_times_clears(x[c]) && zero_plus_keeps(x[c])
        && plus_zero_keeps(x[c]) by {
        integer_unit_laws(x[c]);
    }
    mat_vec_of_identity(n, x, batch_size);
}

} // verus!
