//! The chunking and tail-padding policy.
//!
//! An element-wise operation over sequences of length `n` walks start offsets
//! `0, w, 2w, ...` for the precision's lane width `w`. A full chunk loads `w`
//! consecutive elements per operand into the lanes of a register and computes
//! every lane. The final partial chunk of `r` elements (`0 < r < w`) pads the
//! unused high lanes with the encoding of positive zero, computes every lane
//! all the same, and keeps only the first `r` lanes of the result, so padding
//! lanes are always discarded before they can be observed (for division the
//! padded lanes divide by zero, which under IEEE-754 encodes an infinity or
//! NaN and never faults). The kept lanes are appended in their original
//! order, so the output has exactly the input's length and equals a scalar
//! element-by-element application of the operator.

use vstd::prelude::*;

use crate::ops::BinOp;
use crate::ops::apply_bits32;
use crate::ops::apply_bits64;
use crate::ops::eq_bits32;
use crate::ops::eq_bits64;
use crate::ops::eq32;
use crate::ops::eq64;
use crate::ops::lane_op32;
use crate::ops::lane_op64;
use crate::ops::neg_bits32;
use crate::ops::neg_bits64;
use crate::ops::neg32;
use crate::ops::neg64;

verus! {

/// Padding lanes compare equal: the encoding of positive zero is IEEE-equal
/// to itself.
proof fn lemma_eq_bits32_zero()
    ensures
        eq_bits32(0u32, 0u32),
{
    assert(0u32 & 0x7f80_0000u32 == 0u32) by (bit_vector);
}

/// Padding lanes compare equal: the encoding of positive zero is IEEE-equal
/// to itself.
proof fn lemma_eq_bits64_zero()
    ensures
        eq_bits64(0u64, 0u64),
{
    assert(0u64 & 0x7ff0_0000_0000_0000u64 == 0u64) by (bit_vector);
}

/// Element-wise `op` over two equal-length sequences of single-precision
/// encodings, four lanes per chunk.
pub(crate) fn elementwise32(op: BinOp, lhs: &Vec<u32>, rhs: &Vec<u32>) -> (out: Vec<u32>)
    requires
        lhs@.len() == rhs@.len(),
    ensures
        out@.len() == lhs@.len(),
        forall|k: int| 0 <= k < out@.len() ==> out@[k] == apply_bits32(op, lhs@[k], rhs@[k]),
{
    let n: usize = lhs.len();
    let mut out: Vec<u32> = Vec::new();
    let mut i: usize = 0;
    while i < n
        invariant
            i <= n,
            n == lhs@.len(),
            n == rhs@.len(),
            out@.len() == i,
            forall|k: int| 0 <= k < i ==> out@[k] == apply_bits32(op, lhs@[k], rhs@[k]),
        decreases n - i,
    {
        let rem = n - i;
        let w: usize;
        let a0: u32;
        let a1: u32;
        let a2: u32;
        let a3: u32;
        let b0: u32;
        let b1: u32;
        let b2: u32;
        let b3: u32;
        if rem >= 4 {
            w = 4;
            a0 = lhs[i];
            a1 = lhs[i + 1];
            a2 = lhs[i + 2];
            a3 = lhs[i + 3];
            b0 = rhs[i];
            b1 = rhs[i + 1];
            b2 = rhs[i + 2];
            b3 = rhs[i + 3];
        } else {
            w = rem;
            a0 = lhs[i];
            b0 = rhs[i];
            if rem > 1 {
                a1 = lhs[i + 1];
                b1 = rhs[i + 1];
            } else {
                a1 = 0;
                b1 = 0;
            }
            if rem > 2 {
                a2 = lhs[i + 2];
                b2 = rhs[i + 2];
            } else {
                a2 = 0;
                b2 = 0;
            }
            a3 = 0;
            b3 = 0;
        }
        let r0 = lane_op32(op, a0, b0);
        let r1 = lane_op32(op, a1, b1);
        let r2 = lane_op32(op, a2, b2);
        let r3 = lane_op32(op, a3, b3);
        out.push(r0);
        if w > 1 {
            out.push(r1);
        }
        if w > 2 {
            out.push(r2);
        }
        if w > 3 {
            out.push(r3);
        }
        i = i + w;
    }
    out
}

/// Element-wise `op` over two equal-length sequences of double-precision
/// encodings, two lanes per chunk.
pub(crate) fn elementwise64(op: BinOp, lhs: &Vec<u64>, rhs: &Vec<u64>) -> (out: Vec<u64>)
    requires
        lhs@.len() == rhs@.len(),
    ensures
        out@.len() == lhs@.len(),
        forall|k: int| 0 <= k < out@.len() ==> out@[k] == apply_bits64(op, lhs@[k], rhs@[k]),
{
    let n: usize = lhs.len();
    let mut out: Vec<u64> = Vec::new();
    let mut i: usize = 0;
    while i < n
        invariant
            i <= n,
            n == lhs@.len(),
            n == rhs@.len(),
            out@.len() == i,
            forall|k: int| 0 <= k < i ==> out@[k] == apply_bits64(op, lhs@[k], rhs@[k]),
        decreases n - i,
    {
        let rem = n - i;
        let w: usize;
        let a0: u64;
        let a1: u64;
        let b0: u64;
        let b1: u64;
        if rem >= 2 {
            w = 2;
            a0 = lhs[i];
            a1 = lhs[i + 1];
            b0 = rhs[i];
            b1 = rhs[i + 1];
        } else {
            w = 1;
            a0 = lhs[i];
            b0 = rhs[i];
            a1 = 0;
            b1 = 0;
        }
        let r0 = lane_op64(op, a0, b0);
        let r1 = lane_op64(op, a1, b1);
        out.push(r0);
        if w > 1 {
            out.push(r1);
        }
        i = i + w;
    }
    out
}

/// Element-wise negation of a sequence of single-precision encodings, four
/// lanes per chunk.
pub(crate) fn negate_chunks32(input: &Vec<u32>) -> (out: Vec<u32>)
    ensures
        out@.len() == input@.len(),
        forall|k: int| 0 <= k < out@.len() ==> out@[k] == neg_bits32(input@[k]),
{
    let n: usize = input.len();
    let mut out: Vec<u32> = Vec::new();
    let mut i: usize = 0;
    while i < n
        invariant
            i <= n,
            n == input@.len(),
            out@.len() == i,
            forall|k: int| 0 <= k < i ==> out@[k] == neg_bits32(input@[k]),
        decreases n - i,
    {
        let rem = n - i;
        let w: usize;
        let a0: u32;
        let a1: u32;
        let a2: u32;
        let a3: u32;
        if rem >= 4 {
            w = 4;
            a0 = input[i];
            a1 = input[i + 1];
            a2 = input[i + 2];
            a3 = input[i + 3];
        } else {
            w = rem;
            a0 = input[i];
            a1 = if rem > 1 { input[i + 1] } else { 0 };
            a2 = if rem > 2 { input[i + 2] } else { 0 };
            a3 = 0;
        }
        let r0 = neg32(a0);
        let r1 = neg32(a1);
        let r2 = neg32(a2);
        let r3 = neg32(a3);
        out.push(r0);
        if w > 1 {
            out.push(r1);
        }
        if w > 2 {
            out.push(r2);
        }
        if w > 3 {
            out.push(r3);
        }
        i = i + w;
    }
    out
}

/// Element-wise negation of a sequence of double-precision encodings, two
/// lanes per chunk.
pub(crate) fn negate_chunks64(input: &Vec<u64>) -> (out: Vec<u64>)
    ensures
        out@.len() == input@.len(),
        forall|k: int| 0 <= k < out@.len() ==> out@[k] == neg_bits64(input@[k]),
{
    let n: usize = input.len();
    let mut out: Vec<u64> = Vec::new();
    let mut i: usize = 0;
    while i < n
        invariant
            i <= n,
            n == input@.len(),
            out@.len() == i,
            forall|k: int| 0 <= k < i ==> out@[k] == neg_bits64(input@[k]),
        decreases n - i,
    {
        let rem = n - i;
        let w: usize;
        let a0: u64;
        let a1: u64;
        if rem >= 2 {
            w = 2;
            a0 = input[i];
            a1 = input[i + 1];
        } else {
            w = 1;
            a0 = input[i];
            a1 = 0;
        }
        let r0 = neg64(a0);
        let r1 = neg64(a1);
        out.push(r0);
        if w > 1 {
            out.push(r1);
        }
        i = i + w;
    }
    out
}

/// IEEE-754 equality over two equal-length sequences of single-precision
/// encodings, four lanes per chunk; a chunk passes only when every lane,
/// padding included, compares equal, and evaluation stops at the first chunk
/// with an unequal lane.
pub(crate) fn eq_chunks32(lhs: &Vec<u32>, rhs: &Vec<u32>) -> (r: bool)
    requires
        lhs@.len() == rhs@.len(),
    ensures
        r == (forall|k: int| 0 <= k < lhs@.len() ==> eq_bits32(lhs@[k], rhs@[k])),
{
    let n: usize = lhs.len();
    let mut i: usize = 0;
    while i < n
        invariant
            i <= n,
            n == lhs@.len(),
            n == rhs@.len(),
            forall|k: int| 0 <= k < i ==> eq_bits32(lhs@[k], rhs@[k]),
        decreases n - i,
    {
        let rem = n - i;
        let w: usize;
        let a0: u32;
        let a1: u32;
        let a2: u32;
        let a3: u32;
        let b0: u32;
        let b1: u32;
        let b2: u32;
        let b3: u32;
        if rem >= 4 {
            w = 4;
            a0 = lhs[i];
            a1 = lhs[i + 1];
            a2 = lhs[i + 2];
            a3 = lhs[i + 3];
            b0 = rhs[i];
            b1 = rhs[i + 1];
            b2 = rhs[i + 2];
            b3 = rhs[i + 3];
        } else {
            w = rem;
            a0 = lhs[i];
            b0 = rhs[i];
            if rem > 1 {
                a1 = lhs[i + 1];
                b1 = rhs[i + 1];
            } else {
                a1 = 0;
                b1 = 0;
            }
            if rem > 2 {
                a2 = lhs[i + 2];
                b2 = rhs[i + 2];
            } else {
                a2 = 0;
                b2 = 0;
            }
            a3 = 0;
            b3 = 0;
        }
        let l0 = eq32(a0, b0);
        let l1 = eq32(a1, b1);
        let l2 = eq32(a2, b2);
        let l3 = eq32(a3, b3);
        if !(l0 && l1 && l2 && l3) {
            proof {
                lemma_eq_bits32_zero();
                if !l0 {
                    assert(!eq_bits32(lhs@[i as int], rhs@[i as int]));
                } else if !l1 {
                    assert(!eq_bits32(lhs@[i as int + 1], rhs@[i as int + 1]));
                } else if !l2 {
                    assert(!eq_bits32(lhs@[i as int + 2], rhs@[i as int + 2]));
                } else {
                    assert(!eq_bits32(lhs@[i as int + 3], rhs@[i as int + 3]));
                }
            }
            return false;
        }
        i = i + w;
    }
    true
}

/// IEEE-754 equality over two equal-length sequences of double-precision
/// encodings, two lanes per chunk; a chunk passes only when every lane,
/// padding included, compares equal, and evaluation stops at the first chunk
/// with an unequal lane.
pub(crate) fn eq_chunks64(lhs: &Vec<u64>, rhs: &Vec<u64>) -> (r: bool)
    requires
        lhs@.len() == rhs@.len(),
    ensures
        r == (forall|k: int| 0 <= k < lhs@.len() ==> eq_bits64(lhs@[k], rhs@[k])),
{
    let n: usize = lhs.len();
    let mut i: usize = 0;
    while i < n
        invariant
            i <= n,
            n == lhs@.len(),
            n == rhs@.len(),
            forall|k: int| 0 <= k < i ==> eq_bits64(lhs@[k], rhs@[k]),
        decreases n - i,
    {
        let rem = n - i;
        let w: usize;
        let a0: u64;
        let a1: u64;
        let b0: u64;
        let b1: u64;
        if rem >= 2 {
            w = 2;
            a0 = lhs[i];
            a1 = lhs[i + 1];
            b0 = rhs[i];
            b1 = rhs[i + 1];
        } else {
            w = 1;
            a0 = lhs[i];
            b0 = rhs[i];
            a1 = 0;
            b1 = 0;
        }
        let l0 = eq64(a0, b0);
        let l1 = eq64(a1, b1);
        if !(l0 && l1) {
            proof {
                lemma_eq_bits64_zero();
                if !l0 {
                    assert(!eq_bits64(lhs@[i as int], rhs@[i as int]));
                } else {
                    assert(!eq_bits64(lhs@[i as int + 1], rhs@[i as int + 1]));
                }
            }
            return false;
        }
        i = i + w;
    }
    true
}

} // verus!
