//! Elementwise vector kernels: fixed-length numeric transformations and
//! reductions over caller-supplied buffers of 32-bit integers.

pub mod math;
