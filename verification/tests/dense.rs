use sparse_backend::dense::{
    reduce_add, reduce_add_mul_vector_vectort, splat_add, splat_mul_matrix_vector,
    splat_mul_matrixt_vector,
};
use sparse_backend::select::{check_buckets, select, select_backprop};

#[test]
fn identity_matrix_returns_the_vectors_unchanged() {
    let a: Vec<i64> = vec![1, 0, 0, 0, 0, 1, 0, 0, 0, 0, 1, 0, 0, 0, 0, 1];
    let x: Vec<i64> = vec![1, 2, 3, 4, 5, 6, 7, 8];
    let mut y: Vec<i64> = vec![0; 8];
    splat_mul_matrix_vector(4, 4, &a, &x, &mut y, 2);
    assert_eq!(y, vec![1, 2, 3, 4, 5, 6, 7, 8]);
}

#[test]
fn matrix_vector_multiplies_rows() {
    // two rows, three columns
    let a: Vec<i64> = vec![1, 2, 3, 4, 5, 6];
    let x: Vec<i64> = vec![1, 0, -1, 2, 2, 2];
    let mut y: Vec<i64> = vec![0; 4];
    splat_mul_matrix_vector(2, 3, &a, &x, &mut y, 2);
    assert_eq!(y, vec![-2, -2, 12, 30]);
}

#[test]
fn transposed_matrix_vector_multiplies_columns() {
    let a: Vec<i64> = vec![1, 2, 3, 4, 5, 6];
    let y: Vec<i64> = vec![1, 1, 2, -1];
    let mut x: Vec<i64> = vec![0; 6];
    splat_mul_matrixt_vector(2, 3, &a, &y, &mut x, 2);
    assert_eq!(x, vec![5, 7, 9, -2, -1, 0]);
}

#[test]
fn outer_products_accumulate_over_the_batch() {
    let y: Vec<i64> = vec![1, 2, 3, 4];
    let x: Vec<i64> = vec![1, 10, 100, 2, 20, 200];
    let mut a: Vec<i64> = vec![1000; 6];
    reduce_add_mul_vector_vectort(2, 3, &y, &x, &mut a, 2);
    assert_eq!(a, vec![1007, 1070, 1700, 1010, 1100, 2000]);
}

#[test]
fn zero_gradient_leaves_the_weights() {
    let y: Vec<i64> = vec![0; 4];
    let x: Vec<i64> = vec![1, 10, 100, 2, 20, 200];
    let mut a: Vec<i64> = vec![4, 5, 6, 7, 8, 9];
    reduce_add_mul_vector_vectort(2, 3, &y, &x, &mut a, 2);
    assert_eq!(a, vec![4, 5, 6, 7, 8, 9]);
}

#[test]
fn reduce_add_sums_each_column_over_the_batch() {
    let ones: Vec<i64> = vec![1; 3];
    let inp: Vec<i64> = vec![1, 2, 10, 20, 100, 200];
    let mut out: Vec<i64> = vec![77, 77];
    reduce_add(&ones, 3, 2, &inp, &mut out);
    assert_eq!(out, vec![111, 222]);
    let mut none: Vec<i64> = vec![77, 77];
    reduce_add(&[], 0, 2, &[], &mut none);
    assert_eq!(none, vec![0, 0]);
}

#[test]
fn splat_add_adds_the_tensor_to_every_sample() {
    let inp: Vec<i64> = vec![1, 2, 3];
    let mut out: Vec<i64> = vec![10, 10, 10, 20, 20, 20];
    splat_add(2, 3, &inp, &mut out);
    assert_eq!(out, vec![11, 12, 13, 21, 22, 23]);
}

#[test]
fn select_copies_the_group_of_each_bucket() {
    let inp: Vec<i64> = vec![1, 2, 3, 4, 5, 6, 11, 12, 13, 14, 15, 16];
    let buckets: Vec<u8> = vec![2, 0];
    let mut out: Vec<i64> = vec![0; 4];
    assert!(check_buckets(2, 6, 2, &buckets));
    select(2, 6, 2, &buckets, &inp, &mut out);
    assert_eq!(out, vec![5, 6, 11, 12]);
}

#[test]
fn select_backprop_puts_the_gradient_in_its_group() {
    let grad: Vec<i64> = vec![5, 6, 11, 12];
    let buckets: Vec<u8> = vec![2, 0];
    let mut out: Vec<i64> = vec![9; 12];
    select_backprop(2, 6, 2, &buckets, &grad, &mut out);
    assert_eq!(out, vec![0, 0, 0, 0, 5, 6, 11, 12, 0, 0, 0, 0]);
}

#[test]
fn select_after_select_backprop_gives_the_gradient_back() {
    let grad: Vec<i64> = vec![1, 2, 3, 4, 5, 6];
    let buckets: Vec<u8> = vec![1, 0, 2];
    let mut large: Vec<i64> = vec![9; 18];
    select_backprop(3, 6, 2, &buckets, &grad, &mut large);
    let mut back: Vec<i64> = vec![0; 6];
    select(3, 6, 2, &buckets, &large, &mut back);
    assert_eq!(back, grad);
}

#[test]
fn check_buckets_tells_whether_groups_are_in_reach() {
    assert!(check_buckets(2, 6, 2, &[2, 0]));
    assert!(!check_buckets(2, 6, 2, &[3, 0]));
    assert!(!check_buckets(2, 5, 2, &[0, 2]));
    assert!(check_buckets(0, 0, 4, &[]));
    assert!(!check_buckets(1, usize::MAX, usize::MAX, &[255]));
    assert!(check_buckets(1, 3, 0, &[255]));
}
