//! Elementwise kernels: the activations, their gradients, and accumulation.
//!
//! Each kernel reads `size` elements of `inp` and overwrites all `size`
//! elements of `out`. A gradient kernel reads the incoming gradient from
//! `out` and leaves the outgoing gradient there.

use crate::scalar::{times_one_keeps, times_zero_clears, units_ordered, Scalar};
use vstd::prelude::*;

verus! {

/// `max(x, 0)`.
pub open spec fn relu<T: Scalar>(x: T) -> T {
    if T::zero_spec().less_spec(x) {
        x
    } else {
        T::zero_spec()
    }
}

/// The slope of [`relu`] at `x`: one where `x > 0`, zero elsewhere.
pub open spec fn relu_slope<T: Scalar>(x: T) -> T {
    if T::zero_spec().less_spec(x) {
        T::one_spec()
    } else {
        T::zero_spec()
    }
}

/// `clamp(x, 0, 1)`.
pub open spec fn crelu<T: Scalar>(x: T) -> T {
    if x.less_spec(T::zero_spec()) {
        T::zero_spec()
    } else if T::one_spec().less_spec(x) {
        T::one_spec()
    } else {
        x
    }
}

/// Whether `x` lies in the clip range `[0, 1]`.
pub open spec fn in_clip_range<T: Scalar>(x: T) -> bool {
    !x.less_spec(T::zero_spec()) && !T::one_spec().less_spec(x)
}

/// The slope of [`crelu`] at `x`: one inside the clip range, zero outside.
pub open spec fn crelu_slope<T: Scalar>(x: T) -> T {
    if in_clip_range(x) {
        T::one_spec()
    } else {
        T::zero_spec()
    }
}

/// `clamp(x, 0, 1)^2`.
pub open spec fn screlu<T: Scalar>(x: T) -> T {
    crelu(x).times_spec(crelu(x))
}

/// The slope of [`screlu`] at `x`: `2 * clamp(x, 0, 1)` inside the clip
/// range, zero outside.
pub open spec fn screlu_slope<T: Scalar>(x: T) -> T {
    if in_clip_range(x) {
        T::one_spec().plus_spec(T::one_spec()).times_spec(crelu(x))
    } else {
        T::zero_spec()
    }
}

/// [`relu`] of every element.
pub open spec fn relu_all<T: Scalar>(inp: Seq<T>) -> Seq<T> {
    Seq::new(inp.len(), |i: int| relu(inp[i]))
}

/// [`crelu`] of every element.
pub open spec fn crelu_all<T: Scalar>(inp: Seq<T>) -> Seq<T> {
    Seq::new(inp.len(), |i: int| crelu(inp[i]))
}

/// [`screlu`] of every element.
pub open spec fn screlu_all<T: Scalar>(inp: Seq<T>) -> Seq<T> {
    Seq::new(inp.len(), |i: int| screlu(inp[i]))
}

/// The gradient `grad[i] * relu_slope(inp[i])`.
pub open spec fn relu_gradient<T: Scalar>(inp: Seq<T>, grad: Seq<T>) -> Seq<T> {
    Seq::new(inp.len(), |i: int| grad[i].times_spec(relu_slope(inp[i])))
}

/// The gradient `grad[i] * crelu_slope(inp[i])`.
pub open spec fn crelu_gradient<T: Scalar>(inp: Seq<T>, grad: Seq<T>) -> Seq<T> {
    Seq::new(inp.len(), |i: int| grad[i].times_spec(crelu_slope(inp[i])))
}

/// The gradient `grad[i] * screlu_slope(inp[i])`.
pub open spec fn screlu_gradient<T: Scalar>(inp: Seq<T>, grad: Seq<T>) -> Seq<T> {
    Seq::new(inp.len(), |i: int| grad[i].times_spec(screlu_slope(inp[i])))
}

/// The elementwise sum `acc[i] + inp[i]`.
pub open spec fn sum_all<T: Scalar>(acc: Seq<T>, inp: Seq<T>) -> Seq<T> {
    Seq::new(acc.len(), |i: int| acc[i].plus_spec(inp[i]))
}

fn clamp_unit<T: Scalar>(x: T) -> (r: T)
    ensures
        r == crelu(x),
{
    if x.less(T::zero()) {
        T::zero()
    } else if T::one().less(x) {
        T::one()
    } else {
        x
    }
}

fn inside_clip_range<T: Scalar>(x: T) -> (b: bool)
    ensures
        b == in_clip_range(x),
{
    !x.less(T::zero()) && !T::one().less(x)
}

/// Writes `max(inp[i], 0)` to every `out[i]`.
pub fn activate_relu<T: Scalar>(size: usize, inp: &[T], out: &mut [T])
    requires
        inp@.len() == size,
        old(out)@.len() == size,
    ensures
        final(out)@ == relu_all(inp@),
{
    let mut i: usize = 0;
    while i < size
        invariant
            i <= size,
            inp@.len() == size,
            out@.len() == size,
            forall|k: int| 0 <= k < i ==> out@[k] == relu(inp@[k]),
        decreases size - i,
    {
        let x = inp[i];
        let y = if T::zero().less(x) {
            x
        } else {
            T::zero()
        };
        out[i] = y;
        i += 1;
    }
}

/// Writes `clamp(inp[i], 0, 1)` to every `out[i]`.
pub fn activate_crelu<T: Scalar>(size: usize, inp: &[T], out: &mut [T])
    requires
        inp@.len() == size,
        old(out)@.len() == size,
    ensures
        final(out)@ == crelu_all(inp@),
{
    let mut i: usize = 0;
    while i < size
        invariant
            i <= size,
            inp@.len() == size,
            out@.len() == size,
            forall|k: int| 0 <= k < i ==> out@[k] == crelu(inp@[k]),
        decreases size - i,
    {
        let y = clamp_unit(inp[i]);
        out[i] = y;
        i += 1;
    }
}

/// Writes `clamp(inp[i], 0, 1)^2` to every `out[i]`.
pub fn activate_screlu<T: Scalar>(size: usize, inp: &[T], out: &mut [T])
    requires
        inp@.len() == size,
        old(out)@.len() == size,
    ensures
        final(out)@ == screlu_all(inp@),
{
    let mut i: usize = 0;
    while i < size
        invariant
            i <= size,
            inp@.len() == size,
            out@.len() == size,
            forall|k: int| 0 <= k < i ==> out@[k] == screlu(inp@[k]),
        decreases size - i,
    {
        let c = clamp_unit(inp[i]);
        out[i] = c.times(c);
        i += 1;
    }
}

/// Multiplies every `out[i]` by the slope of `relu` at `inp[i]`.
pub fn backprop_relu<T: Scalar>(size: usize, inp: &[T], out: &mut [T])
    requires
        inp@.len() == size,
        old(out)@.len() == size,
    ensures
        final(out)@ == relu_gradient(inp@, old(out)@),
{
    let mut i: usize = 0;
    while i < size
        invariant
            i <= size,
            inp@.len() == size,
            out@.len() == size,
            forall|k: int| 0 <= k < i ==> out@[k] == old(out)@[k].times_spec(relu_slope(inp@[k])),
            forall|k: int| i <= k < size ==> out@[k] == old(out)@[k],
        decreases size - i,
    {
        let slope = if T::zero().less(inp[i]) {
            T::one()
        } else {
            T::zero()
        };
        let g = out[i].times(slope);
        out[i] = g;
        i += 1;
    }
}

/// Multiplies every `out[i]` by the slope of `crelu` at `inp[i]`.
pub fn backprop_crelu<T: Scalar>(size: usize, inp: &[T], out: &mut [T])
    requires
        inp@.len() == size,
        old(out)@.len() == size,
    ensures
        final(out)@ == crelu_gradient(inp@, old(out)@),
{
    let mut i: usize = 0;
    while i < size
        invariant
            i <= size,
            inp@.len() == size,
            out@.len() == size,
            forall|k: int| 0 <= k < i ==> out@[k] == old(out)@[k].times_spec(crelu_slope(inp@[k])),
            forall|k: int| i <= k < size ==> out@[k] == old(out)@[k],
        decreases size - i,
    {
        let slope = if inside_clip_range(inp[i]) {
            T::one()
        } else {
            T::zero()
        };
        let g = out[i].times(slope);
        out[i] = g;
        i += 1;
    }
}

/// Multiplies every `out[i]` by the slope of `screlu` at `inp[i]`.
pub fn backprop_screlu<T: Scalar>(size: usize, inp: &[T], out: &mut [T])
    requires
        inp@.len() == size,
        old(out)@.len() == size,
    ensures
        final(out)@ == screlu_gradient(inp@, old(out)@),
{
    let mut i: usize = 0;
    while i < size
        invariant
            i <= size,
            inp@.len() == size,
            out@.len() == size,
            forall|k: int| 0 <= k < i ==> out@[k] == old(out)@[k].times_spec(screlu_slope(inp@[k])),
            forall|k: int| i <= k < size ==> out@[k] == old(out)@[k],
        decreases size - i,
    {
        let x = inp[i];
        let slope = if inside_clip_range(x) {
            T::one().plus(T::one()).times(clamp_unit(x))
        } else {
            T::zero()
        };
        let g = out[i].times(slope);
        out[i] = g;
        i += 1;
    }
}

/// Adds every `inp[i]` onto `out[i]`.
pub fn add_to<T: Scalar>(size: usize, inp: &[T], out: &mut [T])
    requires
        inp@.len() == size,
        old(out)@.len() == size,
    ensures
        final(out)@ == sum_all(old(out)@, inp@),
{
    let mut i: usize = 0;
    while i < size
        invariant
            i <= size,
            inp@.len() == size,
            out@.len() == size,
            forall|k: int| 0 <= k < i ==> out@[k] == old(out)@[k].plus_spec(inp@[k]),
            forall|k: int| i <= k < size ==> out@[k] == old(out)@[k],
        decreases size - i,
    {
        let s = out[i].plus(inp[i]);
        out[i] = s;
        i += 1;
    }
}

/// Clamping twice is clamping once.
pub proof fn crelu_idempotent<T: Scalar>(x: T)
    requires
        units_ordered::<T>(),
    ensures
        crelu(crelu(x)) == crelu(x),
{
}

/// A clamped buffer is a fixed point of the clamp.
pub proof fn crelu_all_idempotent<T: Scalar>(inp: Seq<T>)
    requires
        units_ordered::<T>(),
    ensures
        crelu_all(crelu_all(inp)) == crelu_all(inp),
{
    assert forall|i: int| 0 <= i < inp.len() implies crelu_all(crelu_all(inp))[i] == crelu_all(
        inp,
    )[i] by {
        crelu_idempotent(inp[i]);
    }
}

/// The gradient taken at the activated values of `relu` passes unchanged
/// where the input was positive and is zero everywhere else, for every
/// incoming gradient that its unit products leave alone.
pub proof fn relu_gradient_gates<T: Scalar>(inp: Seq<T>, grad: Seq<T>)
    requires
        inp.len() == grad.len(),
        !T::zero_spec().less_spec(T::zero_spec()),
        forall|i: int| 0 <= i < grad.len() ==> times_one_keeps(#[trigger] grad[i]),
        forall|i: int| 0 <= i < grad.len() ==> times_zero_clears(#[trigger] grad[i]),
    ensures
        relu_gradient(relu_all(inp), grad) == relu_gradient(inp, grad),
        forall|i: int|
            0 <= i < inp.len() ==> #[trigger] relu_gradient(inp, grad)[i] == (if T::zero_spec().less_spec(
                inp[i],
            ) {
                grad[i]
            } else {
                T::zero_spec()
            }),
{
}

/// With a zero incoming gradient the outgoing gradient of `relu` is zero.
pub proof fn relu_gradient_of_zero<T: Scalar>(inp: Seq<T>, grad: Seq<T>)
    requires
        inp.len() == grad.len(),
        times_one_keeps(T::zero_spec()),
        times_zero_clears(T::zero_spec()),
        forall|i: int| 0 <= i < grad.len() ==> grad[i] == T::zero_spec(),
    ensures
        relu_gradient(inp, grad) == grad,
{
}

} // verus!
