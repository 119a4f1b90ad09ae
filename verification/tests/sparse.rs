use sparse_backend::feat::Feat;
use sparse_backend::sparse::{
    check_features, weights_reach, single_sparse_affine_backward, single_sparse_affine_forward,
    sparse_affine_backward, sparse_affine_forward,
};

fn feats(indices: &[u32]) -> Vec<Feat> {
    indices.iter().map(|&i| Feat::new(i)).collect()
}

const END: u32 = Feat::END;

#[test]
fn feat_end_marks_the_end() {
    assert!(Feat::end().is_end());
    assert!(!Feat::new(0).is_end());
    assert!(!Feat::new(7).is_end());
    assert_eq!(Feat::end().index, u32::MAX);
    assert_eq!(Feat::new(7).index, 7);
}

#[test]
fn forward_adds_the_weights_of_active_features() {
    // four inputs, two outputs
    let weights: Vec<i64> = vec![1, 2, 10, 20, 100, 200, 1000, 2000];
    let biases: Vec<i64> = vec![5, 7];
    let inputs = feats(&[1, 3, END, 0, 1, 2]);
    let mut outputs: Vec<i64> = vec![0; 4];
    assert!(check_features(2, 3, 2, &inputs, weights.len()));
    sparse_affine_forward(2, 3, 2, &weights, &biases, &inputs, &mut outputs);
    assert_eq!(outputs, vec![5 + 10 + 1000, 7 + 20 + 2000, 5 + 1 + 10 + 100, 7 + 2 + 20 + 200]);
}

#[test]
fn forward_of_a_sample_without_features_is_the_biases() {
    let weights: Vec<i64> = vec![1, 2, 10, 20, 100, 200];
    let biases: Vec<i64> = vec![5, 7];
    let inputs = feats(&[END, END, 2, 1, END, 0]);
    let mut outputs: Vec<i64> = vec![0; 6];
    sparse_affine_forward(3, 2, 2, &weights, &biases, &inputs, &mut outputs);
    assert_eq!(outputs, vec![5, 7, 5 + 100 + 10, 7 + 200 + 20, 5, 7]);
}

#[test]
fn forward_stops_at_the_first_end() {
    let weights: Vec<i64> = vec![1, 10, 100];
    let biases: Vec<i64> = vec![0];
    let inputs = feats(&[0, END, 2, 1]);
    let mut outputs: Vec<i64> = vec![9];
    sparse_affine_forward(1, 4, 1, &weights, &biases, &inputs, &mut outputs);
    assert_eq!(outputs, vec![1]);
}

#[test]
fn forward_counts_a_repeated_feature_each_time() {
    let weights: Vec<i64> = vec![1, 10];
    let biases: Vec<i64> = vec![0];
    let inputs = feats(&[1, 1, 0]);
    let mut outputs: Vec<i64> = vec![9];
    sparse_affine_forward(1, 3, 1, &weights, &biases, &inputs, &mut outputs);
    assert_eq!(outputs, vec![21]);
}

#[test]
fn forward_with_rows_of_no_width_is_the_biases() {
    let weights: Vec<i64> = vec![];
    let biases: Vec<i64> = vec![3, 4];
    let inputs: Vec<Feat> = vec![];
    let mut outputs: Vec<i64> = vec![0; 4];
    sparse_affine_forward(2, 0, 2, &weights, &biases, &inputs, &mut outputs);
    assert_eq!(outputs, vec![3, 4, 3, 4]);
}

#[test]
fn check_features_tells_whether_weights_are_in_reach() {
    let inputs = feats(&[1, 3, END, 0, 1, 2]);
    assert!(check_features(2, 3, 2, &inputs, 8));
    assert!(!check_features(2, 3, 2, &inputs, 7));
    assert!(check_features(2, 3, 2, &inputs, 9));
    // what follows the end of a row is not looked at
    let hidden = feats(&[0, END, 99]);
    assert!(check_features(1, 3, 2, &hidden, 2));
    assert!(!check_features(1, 3, 2, &hidden, 1));
    // a row may be full
    let full = feats(&[0, 1, 5]);
    assert!(!check_features(1, 3, 1, &full, 5));
    assert!(check_features(1, 3, 1, &full, 6));
    // large indices do not wrap
    let large = feats(&[u32::MAX - 1]);
    assert!(!check_features(1, 1, usize::MAX / 2, &large, usize::MAX));
    assert!(check_features(0, 3, 2, &[], 0));
}

#[test]
fn backward_scatters_errors_to_active_features() {
    // three inputs, two outputs, two samples
    let inputs = feats(&[0, 2, 2, END]);
    let errors: Vec<i64> = vec![1, 2, 10, 20];
    let output: Vec<i64> = vec![0; 4];
    let mut weights_grad: Vec<i64> = vec![0, 0, 5, 5, 0, 0];
    let mut biases_grad: Vec<i64> = vec![100, 200];
    sparse_affine_backward(
        2,
        2,
        3,
        2,
        &mut weights_grad,
        &mut biases_grad,
        &inputs,
        &errors,
        &output,
        0,
    );
    assert_eq!(weights_grad, vec![1, 2, 5, 5, 1 + 10, 2 + 20]);
    assert_eq!(biases_grad, vec![111, 222]);
}

#[test]
fn backward_adds_the_regularisation_to_the_weights_only() {
    let inputs = feats(&[1]);
    let errors: Vec<i64> = vec![3, 4];
    let output: Vec<i64> = vec![10, 100];
    let mut weights_grad: Vec<i64> = vec![0; 4];
    let mut biases_grad: Vec<i64> = vec![0; 2];
    sparse_affine_backward(
        1,
        1,
        2,
        2,
        &mut weights_grad,
        &mut biases_grad,
        &inputs,
        &errors,
        &output,
        2,
    );
    assert_eq!(weights_grad, vec![0, 0, 3 + 2 * 10, 4 + 2 * 100]);
    assert_eq!(biases_grad, vec![3, 4]);
}

#[test]
fn backward_of_unit_errors_counts_samples_and_activations() {
    // five inputs, two outputs, four samples of up to three features
    let inputs = feats(&[0, 1, END, 1, END, 0, END, END, END, 4, 1, 0]);
    let errors: Vec<i64> = vec![1; 8];
    let output: Vec<i64> = vec![7; 8];
    let weights: Vec<i64> = vec![3; 10];
    let biases: Vec<i64> = vec![1, 2];
    let mut outputs: Vec<i64> = vec![0; 8];
    sparse_affine_forward(4, 3, 2, &weights, &biases, &inputs, &mut outputs);
    assert_eq!(outputs, vec![7, 8, 4, 5, 1, 2, 10, 11]);
    let mut weights_grad: Vec<i64> = vec![0; 10];
    let mut biases_grad: Vec<i64> = vec![0; 2];
    sparse_affine_backward(
        4,
        3,
        5,
        2,
        &mut weights_grad,
        &mut biases_grad,
        &inputs,
        &errors,
        &output,
        0,
    );
    assert_eq!(biases_grad, vec![4, 4]);
    assert_eq!(weights_grad, vec![2, 2, 3, 3, 0, 0, 0, 0, 1, 1]);
}

#[test]
fn backward_of_an_empty_batch_changes_nothing() {
    let mut weights_grad: Vec<i64> = vec![1, 2, 3, 4];
    let mut biases_grad: Vec<i64> = vec![5, 6];
    sparse_affine_backward(0, 3, 2, 2, &mut weights_grad, &mut biases_grad, &[], &[], &[], 9);
    assert_eq!(weights_grad, vec![1, 2, 3, 4]);
    assert_eq!(biases_grad, vec![5, 6]);
}

#[test]
fn single_forward_is_the_layer_with_one_output() {
    let weights: Vec<i64> = vec![1, 10, 100];
    let biases: Vec<i64> = vec![5];
    let inputs = feats(&[2, 0, END, 1]);
    let mut outputs: Vec<i64> = vec![0; 2];
    single_sparse_affine_forward(2, 2, 1, &weights, &biases, &inputs, &mut outputs);
    assert_eq!(outputs, vec![106, 5]);
}

#[test]
fn single_backward_is_the_layer_with_one_output() {
    let inputs = feats(&[2, 0, END, 1]);
    let errors: Vec<i64> = vec![3, 4];
    let output: Vec<i64> = vec![1, 1];
    let mut weights_grad: Vec<i64> = vec![0; 3];
    let mut biases_grad: Vec<i64> = vec![0];
    single_sparse_affine_backward(
        2,
        2,
        3,
        1,
        &mut weights_grad,
        &mut biases_grad,
        &inputs,
        &errors,
        &output,
        0,
    );
    assert_eq!(weights_grad, vec![3, 0, 3]);
    assert_eq!(biases_grad, vec![7]);
}

#[test]
fn weights_reach_is_the_end_of_the_last_active_feature() {
    let inputs = feats(&[1, 3, END, 0, 1, 2]);
    assert_eq!(weights_reach(2, 3, 2, &inputs), Some(8));
    assert!(check_features(2, 3, 2, &inputs, 8));
    assert!(!check_features(2, 3, 2, &inputs, 7));
    // what follows the end of a row does not count
    assert_eq!(weights_reach(1, 3, 2, &feats(&[0, END, 99])), Some(2));
    assert_eq!(weights_reach(1, 3, 0, &feats(&[5, 6, 7])), Some(0));
    assert_eq!(weights_reach(2, 1, 4, &feats(&[END, END])), Some(0));
    assert_eq!(weights_reach(0, 3, 2, &[]), Some(0));
}

#[test]
fn weights_reach_has_no_length_past_the_address_range() {
    let large = feats(&[2, u32::MAX - 1]);
    assert_eq!(weights_reach(1, 2, usize::MAX / 2, &large), None);
    assert_eq!(weights_reach(1, 1, usize::MAX / 3, &feats(&[2])), Some(usize::MAX / 3 * 3));
    assert_eq!(weights_reach(1, 1, usize::MAX / 3 + 1, &feats(&[2])), None);
}

#[test]
fn single_paths_agree_with_the_layer_on_wider_outputs() {
    let weights: Vec<i64> = vec![1, 2, 10, 20, 100, 200, 1000, 2000];
    let biases: Vec<i64> = vec![5, 7];
    let inputs = feats(&[1, 3, END, 0, 1, 2]);
    let mut wide: Vec<i64> = vec![0; 4];
    sparse_affine_forward(2, 3, 2, &weights, &biases, &inputs, &mut wide);
    let mut single: Vec<i64> = vec![0; 4];
    single_sparse_affine_forward(2, 3, 2, &weights, &biases, &inputs, &mut single);
    assert_eq!(single, wide);

    let errors: Vec<i64> = vec![1, 2, 3, 4];
    let output: Vec<i64> = vec![5, 6, 7, 8];
    let mut wide_w: Vec<i64> = vec![0; 8];
    let mut wide_b: Vec<i64> = vec![0; 2];
    sparse_affine_backward(2, 3, 4, 2, &mut wide_w, &mut wide_b, &inputs, &errors, &output, 3);
    let mut single_w: Vec<i64> = vec![0; 8];
    let mut single_b: Vec<i64> = vec![0; 2];
    single_sparse_affine_backward(
        2,
        3,
        4,
        2,
        &mut single_w,
        &mut single_b,
        &inputs,
        &errors,
        &output,
        3,
    );
    assert_eq!(single_w, wide_w);
    assert_eq!(single_b, wide_b);
}

#[test]
fn single_paths_agree_with_the_layer_on_one_output() {
    let weights: Vec<i64> = vec![1, 10, 100, 1000];
    let biases: Vec<i64> = vec![5];
    let inputs = feats(&[3, 3, 0, END, 2, 1, 1, END, END]);
    let mut wide: Vec<i64> = vec![0; 3];
    sparse_affine_forward(3, 3, 1, &weights, &biases, &inputs, &mut wide);
    let mut single: Vec<i64> = vec![0; 3];
    single_sparse_affine_forward(3, 3, 1, &weights, &biases, &inputs, &mut single);
    assert_eq!(wide, vec![2006, 5, 15]);
    assert_eq!(single, wide);

    let errors: Vec<i64> = vec![1, 20, 300];
    let output: Vec<i64> = vec![2, 3, 4];
    let mut wide_w: Vec<i64> = vec![1; 4];
    let mut wide_b: Vec<i64> = vec![1];
    sparse_affine_backward(3, 3, 4, 1, &mut wide_w, &mut wide_b, &inputs, &errors, &output, 10);
    let mut single_w: Vec<i64> = vec![1; 4];
    let mut single_b: Vec<i64> = vec![1];
    single_sparse_affine_backward(
        3,
        3,
        4,
        1,
        &mut single_w,
        &mut single_b,
        &inputs,
        &errors,
        &output,
        10,
    );
    assert_eq!(wide_w, vec![1 + 21, 1 + 340, 1, 1 + 21 + 21]);
    assert_eq!(wide_b, vec![322]);
    assert_eq!(single_w, wide_w);
    assert_eq!(single_b, wide_b);
}
