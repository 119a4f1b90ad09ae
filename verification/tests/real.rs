use sparse_backend::activation::{
    activate_crelu, activate_relu, activate_screlu, add_to, backprop_crelu, backprop_relu,
    backprop_screlu,
};
use sparse_backend::dense::{reduce_add_mul_vector_vectort, splat_mul_matrix_vector};
use sparse_backend::feat::Feat;
use sparse_backend::scalar::Scalar;
use sparse_backend::select::{select, select_backprop};
use sparse_backend::sparse::{sparse_affine_backward, sparse_affine_forward};

/// Single-precision numbers as tensor elements.
#[derive(Clone, Copy, Debug, PartialEq)]
struct Real(f32);

impl Scalar for Real {
    fn zero_spec() -> Real {
        Real(0.0)
    }

    fn one_spec() -> Real {
        Real(1.0)
    }

    fn plus_spec(self, rhs: Real) -> Real {
        Real(self.0 + rhs.0)
    }

    fn times_spec(self, rhs: Real) -> Real {
        Real(self.0 * rhs.0)
    }

    fn less_spec(self, rhs: Real) -> bool {
        self.0 < rhs.0
    }

    fn zero() -> Real {
        Real(0.0)
    }

    fn one() -> Real {
        Real(1.0)
    }

    fn plus(self, rhs: Real) -> Real {
        Real(self.0 + rhs.0)
    }

    fn times(self, rhs: Real) -> Real {
        Real(self.0 * rhs.0)
    }

    fn less(self, rhs: Real) -> bool {
        self.0 < rhs.0
    }
}

fn reals(values: &[f32]) -> Vec<Real> {
    values.iter().map(|&v| Real(v)).collect()
}

fn plain(values: &[Real]) -> Vec<f32> {
    values.iter().map(|v| v.0).collect()
}

#[test]
fn real_activations_follow_their_formulas() {
    let inp = reals(&[-1.5, 0.0, 0.25, 1.0, 3.0]);
    let mut out = reals(&[9.0; 5]);
    activate_relu(5, &inp, &mut out);
    assert_eq!(plain(&out), vec![0.0, 0.0, 0.25, 1.0, 3.0]);
    activate_crelu(5, &inp, &mut out);
    assert_eq!(plain(&out), vec![0.0, 0.0, 0.25, 1.0, 1.0]);
    activate_screlu(5, &inp, &mut out);
    assert_eq!(plain(&out), vec![0.0, 0.0, 0.0625, 1.0, 1.0]);
}

#[test]
fn real_gradients_follow_their_formulas() {
    let inp = reals(&[-1.5, 0.0, 0.25, 1.0, 3.0]);
    let mut grad = reals(&[2.0; 5]);
    backprop_relu(5, &inp, &mut grad);
    assert_eq!(plain(&grad), vec![0.0, 0.0, 2.0, 2.0, 2.0]);
    let mut grad = reals(&[2.0; 5]);
    backprop_crelu(5, &inp, &mut grad);
    assert_eq!(plain(&grad), vec![0.0, 2.0, 2.0, 2.0, 0.0]);
    let mut grad = reals(&[2.0; 5]);
    backprop_screlu(5, &inp, &mut grad);
    assert_eq!(plain(&grad), vec![0.0, 0.0, 1.0, 4.0, 0.0]);
}

#[test]
fn real_crelu_is_idempotent() {
    let inp = reals(&[-7.0, -0.0, 0.0, 1e-30, 0.5, 1.0, 1.0000001, 1e30]);
    let mut once = reals(&[0.0; 8]);
    activate_crelu(8, &inp, &mut once);
    let mut twice = reals(&[0.0; 8]);
    activate_crelu(8, &once, &mut twice);
    assert_eq!(plain(&once), plain(&twice));
}

#[test]
fn real_add_to_accumulates() {
    let inp = reals(&[0.5, 0.25]);
    let mut out = reals(&[1.0, 2.0]);
    add_to(2, &inp, &mut out);
    assert_eq!(plain(&out), vec![1.5, 2.25]);
}

#[test]
fn real_identity_matrix_returns_the_vectors_unchanged() {
    let a = reals(&[
        1.0, 0.0, 0.0, 0.0, 0.0, 1.0, 0.0, 0.0, 0.0, 0.0, 1.0, 0.0, 0.0, 0.0, 0.0, 1.0,
    ]);
    let x = reals(&[1.0, 2.0, 3.0, 4.0, 5.0, 6.0, 7.0, 8.0]);
    let mut y = reals(&[0.0; 8]);
    splat_mul_matrix_vector(4, 4, &a, &x, &mut y, 2);
    assert_eq!(plain(&y), vec![1.0, 2.0, 3.0, 4.0, 5.0, 6.0, 7.0, 8.0]);
}

#[test]
fn real_sums_are_taken_in_order() {
    // 1e8 + 1 rounds back to 1e8, so the order of the additions shows
    let weights = reals(&[1e8, 1.0, -1e8]);
    let biases = reals(&[0.0]);
    let mut outputs = reals(&[0.0; 2]);
    let inputs = vec![
        Feat::new(0),
        Feat::new(1),
        Feat::new(2),
        Feat::new(0),
        Feat::new(2),
        Feat::new(1),
    ];
    sparse_affine_forward(2, 3, 1, &weights, &biases, &inputs, &mut outputs);
    assert_eq!(plain(&outputs), vec![0.0, 1.0]);
}

#[test]
fn real_backward_counts_with_unit_errors() {
    let inputs = vec![Feat::new(1), Feat::end(), Feat::new(1), Feat::new(0)];
    let errors = reals(&[1.0; 2]);
    let output = reals(&[0.5; 2]);
    let mut weights_grad = reals(&[0.0; 3]);
    let mut biases_grad = reals(&[0.0]);
    sparse_affine_backward(
        2,
        2,
        3,
        1,
        &mut weights_grad,
        &mut biases_grad,
        &inputs,
        &errors,
        &output,
        Real(0.0),
    );
    assert_eq!(plain(&weights_grad), vec![1.0, 2.0, 0.0]);
    assert_eq!(plain(&biases_grad), vec![2.0]);
}

#[test]
fn real_zero_gradient_leaves_the_weights() {
    let y = reals(&[0.0; 4]);
    let x = reals(&[1.0, 10.0, 100.0, 2.0, 20.0, 200.0]);
    let mut a = reals(&[4.0, 5.0, 6.0, 7.0, 8.0, 9.0]);
    reduce_add_mul_vector_vectort(2, 3, &y, &x, &mut a, 2);
    assert_eq!(plain(&a), vec![4.0, 5.0, 6.0, 7.0, 8.0, 9.0]);
}

#[test]
fn real_select_round_trips() {
    let grad = reals(&[0.5, -0.25, 3.0, 4.0]);
    let buckets: Vec<u8> = vec![1, 2];
    let mut large = reals(&[9.0; 12]);
    select_backprop(2, 6, 2, &buckets, &grad, &mut large);
    assert_eq!(
        plain(&large),
        vec![0.0, 0.0, 0.5, -0.25, 0.0, 0.0, 0.0, 0.0, 0.0, 0.0, 3.0, 4.0]
    );
    let mut back = reals(&[0.0; 4]);
    select(2, 6, 2, &buckets, &large, &mut back);
    assert_eq!(plain(&back), plain(&grad));
}
