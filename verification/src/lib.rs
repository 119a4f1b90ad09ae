//! Reference semantics and dispatch planning for the kernels of a
//! sparse-input network trainer.
//!
//! Tensors are flat, sample-major buffers of a [`scalar::Scalar`]; every
//! kernel states its result over the `Seq` view of its buffers.

pub mod activation;
pub mod catalog;
pub mod dense;
pub mod dispatch;
pub mod feat;
pub mod integers;
pub mod layout;
pub mod scalar;
pub mod select;
pub mod sparse;
