//! Scalar lane operations on IEEE-754 bit patterns.
//!
//! Every element of a vector is carried as its IEEE-754 interchange encoding:
//! a `u32` for single precision, a `u64` for double precision. The four
//! rounding arithmetic operations are functions of the operand bits alone
//! (round to nearest, ties to even) and are obtained from `rustc_apfloat`,
//! a software implementation of IEEE-754 binary arithmetic. Negation and
//! equality have short bit-level definitions, stated here as spec functions.

use rustc_apfloat::Float;
use vstd::prelude::*;

verus! {

/// One element-wise binary arithmetic operator.
#[derive(Clone, Copy)]
pub enum BinOp {
    Add,
    Sub,
    Mul,
    Div,
}

/// Bit pattern of the IEEE-754 single-precision sum of the values the
/// arguments encode.
pub uninterp spec fn add_bits32(a: u32, b: u32) -> u32;

/// Bit pattern of the IEEE-754 single-precision difference of the values the
/// arguments encode.
pub uninterp spec fn sub_bits32(a: u32, b: u32) -> u32;

/// Bit pattern of the IEEE-754 single-precision product of the values the
/// arguments encode.
pub uninterp spec fn mul_bits32(a: u32, b: u32) -> u32;

/// Bit pattern of the IEEE-754 single-precision quotient of the values the
/// arguments encode. Division by zero encodes an infinity or NaN, never a
/// fault.
pub uninterp spec fn div_bits32(a: u32, b: u32) -> u32;

/// Bit pattern of the IEEE-754 double-precision sum of the values the
/// arguments encode.
pub uninterp spec fn add_bits64(a: u64, b: u64) -> u64;

/// Bit pattern of the IEEE-754 double-precision difference of the values the
/// arguments encode.
pub uninterp spec fn sub_bits64(a: u64, b: u64) -> u64;

/// Bit pattern of the IEEE-754 double-precision product of the values the
/// arguments encode.
pub uninterp spec fn mul_bits64(a: u64, b: u64) -> u64;

/// Bit pattern of the IEEE-754 double-precision quotient of the values the
/// arguments encode. Division by zero encodes an infinity or NaN, never a
/// fault.
pub uninterp spec fn div_bits64(a: u64, b: u64) -> u64;

/// What one single-precision lane of `op` computes.
pub open spec fn apply_bits32(op: BinOp, a: u32, b: u32) -> u32 {
    match op {
        BinOp::Add => add_bits32(a, b),
        BinOp::Sub => sub_bits32(a, b),
        BinOp::Mul => mul_bits32(a, b),
        BinOp::Div => div_bits32(a, b),
    }
}

/// What one double-precision lane of `op` computes.
pub open spec fn apply_bits64(op: BinOp, a: u64, b: u64) -> u64 {
    match op {
        BinOp::Add => add_bits64(a, b),
        BinOp::Sub => sub_bits64(a, b),
        BinOp::Mul => mul_bits64(a, b),
        BinOp::Div => div_bits64(a, b),
    }
}

/// IEEE-754 negation of a single-precision encoding: the sign bit flips and
/// every other bit is kept, for every encoding, NaN included.
pub open spec fn neg_bits32(a: u32) -> u32 {
    a ^ 0x8000_0000u32
}

/// IEEE-754 negation of a double-precision encoding: the sign bit flips and
/// every other bit is kept, for every encoding, NaN included.
pub open spec fn neg_bits64(a: u64) -> u64 {
    a ^ 0x8000_0000_0000_0000u64
}

/// Whether a single-precision encoding is a NaN: exponent field all ones and
/// a non-zero significand field.
pub open spec fn is_nan32(a: u32) -> bool {
    a & 0x7f80_0000u32 == 0x7f80_0000u32 && a & 0x007f_ffffu32 != 0u32
}

/// Whether a double-precision encoding is a NaN: exponent field all ones and
/// a non-zero significand field.
pub open spec fn is_nan64(a: u64) -> bool {
    a & 0x7ff0_0000_0000_0000u64 == 0x7ff0_0000_0000_0000u64
        && a & 0x000f_ffff_ffff_ffffu64 != 0u64
}

/// IEEE-754 equality of two single-precision encodings: false when either is
/// a NaN; otherwise true exactly when the encodings agree or both encode a
/// zero (positive and negative zero compare equal).
pub open spec fn eq_bits32(a: u32, b: u32) -> bool {
    &&& !is_nan32(a)
    &&& !is_nan32(b)
    &&& (a == b || (a & 0x7fff_ffffu32 == 0u32 && b & 0x7fff_ffffu32 == 0u32))
}

/// IEEE-754 equality of two double-precision encodings: false when either is
/// a NaN; otherwise true exactly when the encodings agree or both encode a
/// zero (positive and negative zero compare equal).
pub open spec fn eq_bits64(a: u64, b: u64) -> bool {
    &&& !is_nan64(a)
    &&& !is_nan64(b)
    &&& (a == b || (a & 0x7fff_ffff_ffff_ffffu64 == 0u64 && b & 0x7fff_ffff_ffff_ffffu64 == 0u64))
}

/// IEEE-754 equality of two single-precision sequences: equal lengths and
/// every corresponding pair of elements IEEE-equal.
pub open spec fn eq_seqs32(a: Seq<u32>, b: Seq<u32>) -> bool {
    a.len() == b.len() && (forall|k: int| 0 <= k < a.len() ==> eq_bits32(a[k], b[k]))
}

/// IEEE-754 equality of two double-precision sequences: equal lengths and
/// every corresponding pair of elements IEEE-equal.
pub open spec fn eq_seqs64(a: Seq<u64>, b: Seq<u64>) -> bool {
    a.len() == b.len() && (forall|k: int| 0 <= k < a.len() ==> eq_bits64(a[k], b[k]))
}

/// Relies on `rustc_apfloat::ieee::Single`'s `Add`: the rounded IEEE-754
/// single-precision sum of the operand bits, a function of those bits alone.
#[verifier::external_body]
pub(crate) fn add32(a: u32, b: u32) -> (r: u32)
    ensures
        r == add_bits32(a, b),
{
    let x = rustc_apfloat::ieee::Single::from_bits(a as u128);
    let y = rustc_apfloat::ieee::Single::from_bits(b as u128);
    (x + y).value.to_bits() as u32
}

/// Relies on `rustc_apfloat::ieee::Single`'s `Sub`: the rounded IEEE-754
/// single-precision difference of the operand bits, a function of those bits
/// alone.
#[verifier::external_body]
pub(crate) fn sub32(a: u32, b: u32) -> (r: u32)
    ensures
        r == sub_bits32(a, b),
{
    let x = rustc_apfloat::ieee::Single::from_bits(a as u128);
    let y = rustc_apfloat::ieee::Single::from_bits(b as u128);
    (x - y).value.to_bits() as u32
}

/// Relies on `rustc_apfloat::ieee::Single`'s `Mul`: the rounded IEEE-754
/// single-precision product of the operand bits, a function of those bits
/// alone.
#[verifier::external_body]
pub(crate) fn mul32(a: u32, b: u32) -> (r: u32)
    ensures
        r == mul_bits32(a, b),
{
    let x = rustc_apfloat::ieee::Single::from_bits(a as u128);
    let y = rustc_apfloat::ieee::Single::from_bits(b as u128);
    (x * y).value.to_bits() as u32
}

/// Relies on `rustc_apfloat::ieee::Single`'s `Div`: the rounded IEEE-754
/// single-precision quotient of the operand bits, a function of those bits
/// alone; division by zero yields an infinity or NaN encoding, never a fault.
#[verifier::external_body]
pub(crate) fn div32(a: u32, b: u32) -> (r: u32)
    ensures
        r == div_bits32(a, b),
{
    let x = rustc_apfloat::ieee::Single::from_bits(a as u128);
    let y = rustc_apfloat::ieee::Single::from_bits(b as u128);
    (x / y).value.to_bits() as u32
}

/// Relies on `rustc_apfloat::ieee::Double`'s `Add`: the rounded IEEE-754
/// double-precision sum of the operand bits, a function of those bits alone.
#[verifier::external_body]
pub(crate) fn add64(a: u64, b: u64) -> (r: u64)
    ensures
        r == add_bits64(a, b),
{
    let x = rustc_apfloat::ieee::Double::from_bits(a as u128);
    let y = rustc_apfloat::ieee::Double::from_bits(b as u128);
    (x + y).value.to_bits() as u64
}

/// Relies on `rustc_apfloat::ieee::Double`'s `Sub`: the rounded IEEE-754
/// double-precision difference of the operand bits, a function of those bits
/// alone.
#[verifier::external_body]
pub(crate) fn sub64(a: u64, b: u64) -> (r: u64)
    ensures
        r == sub_bits64(a, b),
{
    let x = rustc_apfloat::ieee::Double::from_bits(a as u128);
    let y = rustc_apfloat::ieee::Double::from_bits(b as u128);
    (x - y).value.to_bits() as u64
}

/// Relies on `rustc_apfloat::ieee::Double`'s `Mul`: the rounded IEEE-754
/// double-precision product of the operand bits, a function of those bits
/// alone.
#[verifier::external_body]
pub(crate) fn mul64(a: u64, b: u64) -> (r: u64)
    ensures
        r == mul_bits64(a, b),
{
    let x = rustc_apfloat::ieee::Double::from_bits(a as u128);
    let y = rustc_apfloat::ieee::Double::from_bits(b as u128);
    (x * y).value.to_bits() as u64
}

/// Relies on `rustc_apfloat::ieee::Double`'s `Div`: the rounded IEEE-754
/// double-precision quotient of the operand bits, a function of those bits
/// alone; division by zero yields an infinity or NaN encoding, never a fault.
#[verifier::external_body]
pub(crate) fn div64(a: u64, b: u64) -> (r: u64)
    ensures
        r == div_bits64(a, b),
{
    let x = rustc_apfloat::ieee::Double::from_bits(a as u128);
    let y = rustc_apfloat::ieee::Double::from_bits(b as u128);
    (x / y).value.to_bits() as u64
}

/// Relies on `rustc_apfloat::ieee::Single`'s `Neg`, which flips the sign bit
/// and keeps every other bit of the encoding.
#[verifier::external_body]
pub(crate) fn neg32(a: u32) -> (r: u32)
    ensures
        r == neg_bits32(a),
{
    (-rustc_apfloat::ieee::Single::from_bits(a as u128)).to_bits() as u32
}

/// Relies on `rustc_apfloat::ieee::Double`'s `Neg`, which flips the sign bit
/// and keeps every other bit of the encoding.
#[verifier::external_body]
pub(crate) fn neg64(a: u64) -> (r: u64)
    ensures
        r == neg_bits64(a),
{
    (-rustc_apfloat::ieee::Double::from_bits(a as u128)).to_bits() as u64
}

/// Relies on `rustc_apfloat::ieee::Single`'s `PartialEq`: IEEE-754 equality,
/// false on any NaN operand, true on zeros of either sign.
#[verifier::external_body]
pub(crate) fn eq32(a: u32, b: u32) -> (r: bool)
    ensures
        r == eq_bits32(a, b),
{
    rustc_apfloat::ieee::Single::from_bits(a as u128)
        == rustc_apfloat::ieee::Single::from_bits(b as u128)
}

/// Relies on `rustc_apfloat::ieee::Double`'s `PartialEq`: IEEE-754 equality,
/// false on any NaN operand, true on zeros of either sign.
#[verifier::external_body]
pub(crate) fn eq64(a: u64, b: u64) -> (r: bool)
    ensures
        r == eq_bits64(a, b),
{
    rustc_apfloat::ieee::Double::from_bits(a as u128)
        == rustc_apfloat::ieee::Double::from_bits(b as u128)
}

/// One single-precision lane of `op`: verified dispatch to the lane
/// operations above.
pub(crate) fn lane_op32(op: BinOp, a: u32, b: u32) -> (r: u32)
    ensures
        r == apply_bits32(op, a, b),
{
    match op {
        BinOp::Add => add32(a, b),
        BinOp::Sub => sub32(a, b),
        BinOp::Mul => mul32(a, b),
        BinOp::Div => div32(a, b),
    }
}

/// One double-precision lane of `op`: verified dispatch to the lane
/// operations above.
pub(crate) fn lane_op64(op: BinOp, a: u64, b: u64) -> (r: u64)
    ensures
        r == apply_bits64(op, a, b),
{
    match op {
        BinOp::Add => add64(a, b),
        BinOp::Sub => sub64(a, b),
        BinOp::Mul => mul64(a, b),
        BinOp::Div => div64(a, b),
    }
}

} // verus!
