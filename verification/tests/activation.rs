use sparse_backend::activation::{
    activate_crelu, activate_relu, activate_screlu, add_to, backprop_crelu, backprop_relu,
    backprop_screlu,
};

#[test]
fn relu_keeps_positive_values_and_clears_the_rest() {
    let inp: Vec<i64> = vec![-2, 0, 3, i64::MIN, i64::MAX];
    let mut out: Vec<i64> = vec![9; 5];
    activate_relu(5, &inp, &mut out);
    assert_eq!(out, vec![0, 0, 3, 0, i64::MAX]);
}

#[test]
fn relu_of_nothing_is_nothing() {
    let inp: Vec<i64> = vec![];
    let mut out: Vec<i64> = vec![];
    activate_relu(0, &inp, &mut out);
    assert!(out.is_empty());
}

#[test]
fn crelu_clamps_to_the_unit_range() {
    let inp: Vec<i64> = vec![-5, 0, 1, 7];
    let mut out: Vec<i64> = vec![9; 4];
    activate_crelu(4, &inp, &mut out);
    assert_eq!(out, vec![0, 0, 1, 1]);
}

#[test]
fn crelu_twice_is_crelu_once() {
    let inp: Vec<i64> = vec![-5, 0, 1, 7, 2, -1];
    let mut once: Vec<i64> = vec![0; 6];
    activate_crelu(6, &inp, &mut once);
    let mut twice: Vec<i64> = vec![0; 6];
    activate_crelu(6, &once, &mut twice);
    assert_eq!(once, twice);
}

#[test]
fn screlu_squares_the_clamped_value() {
    let inp: Vec<i64> = vec![-5, 0, 1, 7];
    let mut out: Vec<i64> = vec![9; 4];
    activate_screlu(4, &inp, &mut out);
    assert_eq!(out, vec![0, 0, 1, 1]);
}

#[test]
fn relu_gradient_passes_where_the_input_was_positive() {
    let inp: Vec<i64> = vec![-1, 0, 2, 5];
    let mut grad: Vec<i64> = vec![5, 6, 7, -8];
    backprop_relu(4, &inp, &mut grad);
    assert_eq!(grad, vec![0, 0, 7, -8]);
}

#[test]
fn relu_then_its_gradient_gates_by_the_sign_of_the_input() {
    let x: Vec<i64> = vec![-3, 4, 0, 9];
    let mut y: Vec<i64> = vec![0; 4];
    activate_relu(4, &x, &mut y);
    let mut grad: Vec<i64> = vec![10, 20, 30, 40];
    backprop_relu(4, &y, &mut grad);
    assert_eq!(grad, vec![0, 20, 0, 40]);
    let mut none: Vec<i64> = vec![0; 4];
    backprop_relu(4, &y, &mut none);
    assert_eq!(none, vec![0, 0, 0, 0]);
}

#[test]
fn crelu_gradient_passes_inside_the_clip_range() {
    let inp: Vec<i64> = vec![-1, 0, 1, 2];
    let mut grad: Vec<i64> = vec![3, 4, 5, 6];
    backprop_crelu(4, &inp, &mut grad);
    assert_eq!(grad, vec![0, 4, 5, 0]);
}

#[test]
fn screlu_gradient_is_twice_the_clamped_value() {
    let inp: Vec<i64> = vec![-1, 0, 1, 2];
    let mut grad: Vec<i64> = vec![3, 4, 5, 6];
    backprop_screlu(4, &inp, &mut grad);
    assert_eq!(grad, vec![0, 0, 10, 0]);
}

#[test]
fn add_to_accumulates_elementwise() {
    let inp: Vec<i64> = vec![10, 20, -30];
    let mut out: Vec<i64> = vec![1, 2, 3];
    add_to(3, &inp, &mut out);
    assert_eq!(out, vec![11, 22, -27]);
    add_to(3, &inp, &mut out);
    assert_eq!(out, vec![21, 42, -57]);
}

#[test]
fn integer_sums_wrap() {
    let inp: Vec<i64> = vec![1];
    let mut out: Vec<i64> = vec![i64::MAX];
    add_to(1, &inp, &mut out);
    assert_eq!(out, vec![i64::MIN]);
}
