//! Elementwise numeric kernels over caller-supplied buffers.
//!
//! Every kernel reads the first `length` elements of its input buffer(s) and
//! writes the first `length` slots of its output buffer, leaving the rest of
//! the output untouched. A `length` that exceeds any buffer is reported as
//! `KernelError::OutOfRange` and nothing is written. Arithmetic that leaves
//! the 32-bit range wraps around, as two's-complement fixed-width arithmetic
//! does; the contracts state the wrapped value exactly.

use vstd::prelude::*;

verus! {

/// The one failure a kernel reports: a `length` larger than an input or
/// output buffer.
#[derive(Clone, Copy, Debug, PartialEq, Eq, Structural)]
pub enum KernelError {
    OutOfRange,
}

/// Widens each of the first `length` bytes of `src` by zero-extension into
/// the corresponding slot of `dest`.
pub fn copy_u8_to_i32(src: &Vec<u8>, dest: &mut Vec<i32>, length: usize) -> (r: Result<
    (),
    KernelError,
>)
    ensures
        r is Ok <==> length <= src@.len() && length <= old(dest)@.len(),
        r is Ok ==> final(dest)@.len() == old(dest)@.len() && (forall|i: int|
            0 <= i < length ==> final(dest)@[i] == src@[i] as i32) && (forall|i: int|
            length <= i < old(dest)@.len() ==> final(dest)@[i] == old(dest)@[i]),
        r is Err ==> final(dest)@ == old(dest)@,
{
    if length > src.len() || length > dest.len() {
        return Err(KernelError::OutOfRange);
    }
    let mut i: usize = 0;
    while i < length
        invariant
            i <= length,
            length <= src@.len(),
            dest@.len() == old(dest)@.len(),
            length <= dest@.len(),
            forall|j: int| 0 <= j < i ==> dest@[j] == src@[j] as i32,
            forall|j: int| i <= j < dest@.len() ==> dest@[j] == old(dest)@[j],
        decreases length - i,
    {
        let value: u8 = src[i];
        dest.set(i, value as i32);
        i = i + 1;
    }
    Ok(())
}

/// The absolute value of a 32-bit signed element. The one wraparound point:
/// `i32::MIN` has no positive counterpart, and negating it gives back
/// `i32::MIN` itself.
pub open spec fn abs_val(x: i32) -> i32 {
    if x == i32::MIN {
        i32::MIN
    } else if x >= 0 {
        x
    } else {
        (-x) as i32
    }
}

/// Replaces the first `length` slots of `dest` with the absolute values of
/// the corresponding elements of `src`, wrapping at `i32::MIN`.
pub fn abs(src: &Vec<i32>, dest: &mut Vec<i32>, length: usize) -> (r: Result<(), KernelError>)
    ensures
        r is Ok <==> length <= src@.len() && length <= old(dest)@.len(),
        r is Ok ==> final(dest)@.len() == old(dest)@.len() && (forall|i: int|
            0 <= i < length ==> final(dest)@[i] == abs_val(src@[i])) && (forall|i: int|
            length <= i < old(dest)@.len() ==> final(dest)@[i] == old(dest)@[i]),
        r is Err ==> final(dest)@ == old(dest)@,
{
    if length > src.len() || length > dest.len() {
        return Err(KernelError::OutOfRange);
    }
    let mut i: usize = 0;
    while i < length
        invariant
            i <= length,
            length <= src@.len(),
            dest@.len() == old(dest)@.len(),
            length <= dest@.len(),
            forall|j: int| 0 <= j < i ==> dest@[j] == abs_val(src@[j]),
            forall|j: int| i <= j < dest@.len() ==> dest@[j] == old(dest)@[j],
        decreases length - i,
    {
        let value: i32 = src[i];
        let magnitude: i32 = if value == i32::MIN {
            i32::MIN
        } else if value >= 0 {
            value
        } else {
            -value
        };
        dest.set(i, magnitude);
        i = i + 1;
    }
    Ok(())
}

/// The square of a 32-bit signed element, reduced into 32 unsigned bits.
/// For magnitudes up to 65535 this is the mathematical square.
pub open spec fn square_val(x: i32) -> u32 {
    ((x * x) % 0x1_0000_0000) as u32
}

/// Writes the square of each of the first `length` elements of `src` into
/// the corresponding slot of `dest`, as an unsigned 32-bit value. A square
/// beyond `u32::MAX` wraps; within it, the slot holds the exact square.
pub fn square(src: &Vec<i32>, dest: &mut Vec<u32>, length: usize) -> (r: Result<(), KernelError>)
    ensures
        r is Ok <==> length <= src@.len() && length <= old(dest)@.len(),
        r is Ok ==> final(dest)@.len() == old(dest)@.len() && (forall|i: int|
            0 <= i < length ==> final(dest)@[i] == square_val(src@[i])) && (forall|i: int|
            length <= i < old(dest)@.len() ==> final(dest)@[i] == old(dest)@[i]),
        r is Ok ==> forall|i: int|
            0 <= i < length && src@[i] * src@[i] <= u32::MAX ==> final(dest)@[i] == src@[i]
                * src@[i],
        r is Err ==> final(dest)@ == old(dest)@,
{
    if length > src.len() || length > dest.len() {
        return Err(KernelError::OutOfRange);
    }
    let mut i: usize = 0;
    while i < length
        invariant
            i <= length,
            length <= src@.len(),
            dest@.len() == old(dest)@.len(),
            length <= dest@.len(),
            forall|j: int| 0 <= j < i ==> dest@[j] == square_val(src@[j]),
            forall|j: int| i <= j < dest@.len() ==> dest@[j] == old(dest)@[j],
        decreases length - i,
    {
        let value: i32 = src[i];
        let magnitude: u32 = if value == i32::MIN {
            0x8000_0000u32
        } else if value >= 0 {
            value as u32
        } else {
            (-value) as u32
        };
        proof {
            assert(magnitude * magnitude == value * value) by (nonlinear_arith)
                requires
                    magnitude == value || magnitude == -(value as int),
            ;
        }
        let squared: u32 = magnitude.wrapping_mul(magnitude);
        dest.set(i, squared);
        i = i + 1;
    }
    proof {
        assert forall|j: int|
            0 <= j < length && src@[j] * src@[j] <= u32::MAX implies dest@[j] == src@[j]
            * src@[j] by {
            let v = src@[j] * src@[j];
            assert(src@[j] * src@[j] >= 0) by (nonlinear_arith);
            vstd::arithmetic::div_mod::lemma_small_mod(v as nat, 0x1_0000_0000nat);
            assert(square_val(src@[j]) == v as u32);
        }
    }
    Ok(())
}

/// The binary elementwise operations that `apply_for_range` carries across a
/// pair of buffers.
#[derive(Clone, Copy, Debug, PartialEq, Eq, Structural)]
enum BinOp {
    Add,
    Sub,
}

/// What one application of a binary operation yields, with 32-bit wraparound.
spec fn apply_op_val(op: BinOp, x: i32, y: i32) -> i32 {
    match op {
        BinOp::Add => vstd::wrapping::i32_specs::wrapping_add(x, y),
        BinOp::Sub => vstd::wrapping::i32_specs::wrapping_sub(x, y),
    }
}

/// Applies a binary operation to one pair of elements.
fn apply(op: BinOp, x: i32, y: i32) -> (r: i32)
    ensures
        r == apply_op_val(op, x, y),
{
    match op {
        BinOp::Add => x.wrapping_add(y),
        BinOp::Sub => x.wrapping_sub(y),
    }
}

/// Applies a binary operation elementwise across the first `length` elements
/// of `left` and `right`, writing the results into `dest`.
fn apply_for_range(op: BinOp, left: &Vec<i32>, right: &Vec<i32>, dest: &mut Vec<i32>, length: usize) -> (r:
    Result<(), KernelError>)
    ensures
        r is Ok <==> length <= left@.len() && length <= right@.len() && length <= old(
            dest,
        )@.len(),
        r is Ok ==> final(dest)@.len() == old(dest)@.len() && (forall|i: int|
            0 <= i < length ==> final(dest)@[i] == apply_op_val(op, left@[i], right@[i])) && (
        forall|i: int| length <= i < old(dest)@.len() ==> final(dest)@[i] == old(dest)@[i]),
        r is Err ==> final(dest)@ == old(dest)@,
{
    if length > left.len() || length > right.len() || length > dest.len() {
        return Err(KernelError::OutOfRange);
    }
    let mut i: usize = 0;
    while i < length
        invariant
            i <= length,
            length <= left@.len(),
            length <= right@.len(),
            dest@.len() == old(dest)@.len(),
            length <= dest@.len(),
            forall|j: int| 0 <= j < i ==> dest@[j] == apply_op_val(op, left@[j], right@[j]),
            forall|j: int| i <= j < dest@.len() ==> dest@[j] == old(dest)@[j],
        decreases length - i,
    {
        let value: i32 = apply(op, left[i], right[i]);
        dest.set(i, value);
        i = i + 1;
    }
    Ok(())
}

/// Writes the elementwise sum of the first `length` elements of `left` and
/// `right` into `dest`, wrapping around on 32-bit overflow.
pub fn vector_add(left: &Vec<i32>, right: &Vec<i32>, dest: &mut Vec<i32>, length: usize) -> (r:
    Result<(), KernelError>)
    ensures
        r is Ok <==> length <= left@.len() && length <= right@.len() && length <= old(
            dest,
        )@.len(),
        r is Ok ==> final(dest)@.len() == old(dest)@.len() && (forall|i: int|
            0 <= i < length ==> final(dest)@[i] == vstd::wrapping::i32_specs::wrapping_add(
                left@[i],
                right@[i],
            )) && (forall|i: int|
            length <= i < old(dest)@.len() ==> final(dest)@[i] == old(dest)@[i]),
        r is Err ==> final(dest)@ == old(dest)@,
{
    apply_for_range(BinOp::Add, left, right, dest, length)
}

/// Writes the elementwise difference of the first `length` elements of
/// `left` and `right` into `dest`, wrapping around on 32-bit overflow.
pub fn vector_sub(left: &Vec<i32>, right: &Vec<i32>, dest: &mut Vec<i32>, length: usize) -> (r:
    Result<(), KernelError>)
    ensures
        r is Ok <==> length <= left@.len() && length <= right@.len() && length <= old(
            dest,
        )@.len(),
        r is Ok ==> final(dest)@.len() == old(dest)@.len() && (forall|i: int|
            0 <= i < length ==> final(dest)@[i] == vstd::wrapping::i32_specs::wrapping_sub(
                left@[i],
                right@[i],
            )) && (forall|i: int|
            length <= i < old(dest)@.len() ==> final(dest)@[i] == old(dest)@[i]),
        r is Err ==> final(dest)@ == old(dest)@,
{
    apply_for_range(BinOp::Sub, left, right, dest, length)
}

/// Taking an absolute value twice changes nothing, so `abs` applied to its
/// own output writes that output back unchanged, elementwise; and every
/// absolute value is nonnegative, except at the one wraparound point
/// `i32::MIN`.
pub proof fn lemma_abs_idempotent(x: Seq<i32>)
    ensures
        forall|i: int| 0 <= i < x.len() ==> abs_val(abs_val(x[i])) == abs_val(x[i]),
        forall|i: int| 0 <= i < x.len() && x[i] != i32::MIN ==> abs_val(x[i]) >= 0,
{
}

/// Subtracting `y` undoes adding `y`, even across 32-bit wraparound, so
/// `vector_sub(vector_add(x, y), y)` recovers `x`, elementwise.
pub proof fn lemma_add_sub_inverse(x: Seq<i32>, y: Seq<i32>)
    ensures
        forall|i: int|
            0 <= i < x.len() && i < y.len() ==> vstd::wrapping::i32_specs::wrapping_sub(
                vstd::wrapping::i32_specs::wrapping_add(x[i], y[i]),
                y[i],
            ) == x[i],
{
}

/// Addition is commutative, so `vector_add(x, y)` and `vector_add(y, x)`
/// write the same values, elementwise.
pub proof fn lemma_add_commutes(x: Seq<i32>, y: Seq<i32>)
    ensures
        forall|i: int|
            0 <= i < x.len() && i < y.len() ==> vstd::wrapping::i32_specs::wrapping_add(x[i], y[i])
                == vstd::wrapping::i32_specs::wrapping_add(y[i], x[i]),
{
}

} // verus!
