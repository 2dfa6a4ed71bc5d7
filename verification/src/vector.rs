//! The numeric vector container and its element-wise operations.
//!
//! A `Vector<T>` owns a contiguous sequence of IEEE-754 encodings (`u32` for
//! single precision, `u64` for double precision). Arithmetic never mutates an
//! operand: every operation allocates a fresh vector, filled chunk by chunk at
//! the lane width of the precision (four single-precision lanes, two
//! double-precision lanes).

use vstd::prelude::*;
use vstd::string::StringExecFns;

use crate::chunk::elementwise32;
use crate::chunk::elementwise64;
use crate::chunk::eq_chunks32;
use crate::chunk::eq_chunks64;
use crate::chunk::negate_chunks32;
use crate::chunk::negate_chunks64;
use crate::ops::BinOp;
use crate::ops::add_bits32;
use crate::ops::add_bits64;
use crate::ops::div_bits32;
use crate::ops::div_bits64;
use crate::ops::eq_seqs32;
use crate::ops::eq_seqs64;
use crate::ops::mul_bits32;
use crate::ops::mul_bits64;
use crate::ops::neg_bits32;
use crate::ops::neg_bits64;
use crate::ops::sub_bits32;
use crate::ops::sub_bits64;

verus! {

/// A fixed-length numeric vector: an owned, ordered sequence of IEEE-754
/// encodings. Its view is the sequence of element encodings.
#[derive(Debug)]
pub struct Vector<T> {
    data: Vec<T>,
}

impl<T> View for Vector<T> {
    type V = Seq<T>;

    closed spec fn view(&self) -> Seq<T> {
        self.data@
    }
}

impl<T: Copy> Vector<T> {
    /// Builds a vector by copying the given elements into fresh owned
    /// storage; the caller's buffer is never aliased.
    pub fn new(elems: &[T]) -> (v: Vector<T>)
        ensures
            v@ == elems@,
    {
        let n: usize = elems.len();
        let mut data: Vec<T> = Vec::new();
        let mut i: usize = 0;
        while i < n
            invariant
                i <= n,
                n == elems@.len(),
                data@ == elems@.subrange(0, i as int),
            decreases n - i,
        {
            data.push(elems[i]);
            i = i + 1;
        }
        proof {
            assert(elems@.subrange(0, n as int) =~= elems@);
        }
        Vector { data }
    }

    /// Number of elements.
    pub fn len(&self) -> (n: usize)
        ensures
            n == self@.len(),
    {
        self.data.len()
    }

    /// The element at position `index`; the position must be in bounds.
    pub fn index(&self, index: usize) -> (r: &T)
        requires
            index < self@.len(),
        ensures
            *r == self@[index as int],
    {
        &self.data[index]
    }

    /// Replaces this vector's contents with an independent copy of
    /// `source`'s.
    pub fn clone_from(&mut self, source: &Vector<T>)
        ensures
            final(self)@ == source@,
    {
        *self = source.clone();
    }
}

impl Vector<u32> {
    /// Element-wise IEEE-754 single-precision sum, chunk by chunk; fails with
    /// a shape-mismatch message exactly when the lengths differ, and then
    /// produces no partial output.
    pub fn add(self, rhs: Vector<u32>) -> (r: Result<Vector<u32>, String>)
        ensures
            match r {
                Ok(v) => {
                    &&& self@.len() == rhs@.len()
                    &&& v@.len() == self@.len()
                    &&& forall|k: int|
                        0 <= k < v@.len() ==> v@[k] == add_bits32(self@[k], rhs@[k])
                },
                Err(m) => {
                    &&& self@.len() != rhs@.len()
                    &&& m@ == "Vectors are not conformable for addition."@
                },
            },
    {
        if self.data.len() == rhs.data.len() {
            Ok(Vector { data: elementwise32(BinOp::Add, &self.data, &rhs.data) })
        } else {
            Err(String::from_str("Vectors are not conformable for addition."))
        }
    }

    /// Element-wise IEEE-754 single-precision difference, chunk by chunk;
    /// fails with a shape-mismatch message exactly when the lengths differ,
    /// and then produces no partial output.
    pub fn sub(self, rhs: Vector<u32>) -> (r: Result<Vector<u32>, String>)
        ensures
            match r {
                Ok(v) => {
                    &&& self@.len() == rhs@.len()
                    &&& v@.len() == self@.len()
                    &&& forall|k: int|
                        0 <= k < v@.len() ==> v@[k] == sub_bits32(self@[k], rhs@[k])
                },
                Err(m) => {
                    &&& self@.len() != rhs@.len()
                    &&& m@ == "Vectors are not conformable for subtraction."@
                },
            },
    {
        if self.data.len() == rhs.data.len() {
            Ok(Vector { data: elementwise32(BinOp::Sub, &self.data, &rhs.data) })
        } else {
            Err(String::from_str("Vectors are not conformable for subtraction."))
        }
    }

    /// Element-wise IEEE-754 single-precision product, chunk by chunk; fails
    /// with a shape-mismatch message exactly when the lengths differ, and
    /// then produces no partial output.
    pub fn mul(self, rhs: Vector<u32>) -> (r: Result<Vector<u32>, String>)
        ensures
            match r {
                Ok(v) => {
                    &&& self@.len() == rhs@.len()
                    &&& v@.len() == self@.len()
                    &&& forall|k: int|
                        0 <= k < v@.len() ==> v@[k] == mul_bits32(self@[k], rhs@[k])
                },
                Err(m) => {
                    &&& self@.len() != rhs@.len()
                    &&& m@ == "Vectors are not conformable for multiplication."@
                },
            },
    {
        if self.data.len() == rhs.data.len() {
            Ok(Vector { data: elementwise32(BinOp::Mul, &self.data, &rhs.data) })
        } else {
            Err(String::from_str("Vectors are not conformable for multiplication."))
        }
    }

    /// Element-wise IEEE-754 single-precision quotient, chunk by chunk;
    /// division by zero encodes an infinity or NaN per IEEE-754, never a
    /// fault. Fails with a shape-mismatch message exactly when the lengths
    /// differ, and then produces no partial output.
    pub fn div(self, rhs: Vector<u32>) -> (r: Result<Vector<u32>, String>)
        ensures
            match r {
                Ok(v) => {
                    &&& self@.len() == rhs@.len()
                    &&& v@.len() == self@.len()
                    &&& forall|k: int|
                        0 <= k < v@.len() ==> v@[k] == div_bits32(self@[k], rhs@[k])
                },
                Err(m) => {
                    &&& self@.len() != rhs@.len()
                    &&& m@ == "Vectors are not conformable for division."@
                },
            },
    {
        if self.data.len() == rhs.data.len() {
            Ok(Vector { data: elementwise32(BinOp::Div, &self.data, &rhs.data) })
        } else {
            Err(String::from_str("Vectors are not conformable for division."))
        }
    }

    /// Element-wise IEEE-754 single-precision negation, chunk by chunk; no
    /// failure is possible.
    pub fn neg(self) -> (r: Vector<u32>)
        ensures
            r@.len() == self@.len(),
            forall|k: int| 0 <= k < r@.len() ==> r@[k] == neg_bits32(self@[k]),
    {
        Vector { data: negate_chunks32(&self.data) }
    }

    /// IEEE-754 equality: true exactly when the lengths agree and every
    /// corresponding pair of elements compares equal (NaN elements compare
    /// unequal even to themselves; zeros of either sign compare equal).
    /// Differing lengths give `false`, not an error.
    pub fn eq(&self, other: &Vector<u32>) -> (r: bool)
        ensures
            r == eq_seqs32(self@, other@),
    {
        if self.data.len() == other.data.len() {
            eq_chunks32(&self.data, &other.data)
        } else {
            false
        }
    }
}

impl Vector<u64> {
    /// Element-wise IEEE-754 double-precision sum, chunk by chunk; fails with
    /// a shape-mismatch message exactly when the lengths differ, and then
    /// produces no partial output.
    pub fn add(self, rhs: Vector<u64>) -> (r: Result<Vector<u64>, String>)
        ensures
            match r {
                Ok(v) => {
                    &&& self@.len() == rhs@.len()
                    &&& v@.len() == self@.len()
                    &&& forall|k: int|
                        0 <= k < v@.len() ==> v@[k] == add_bits64(self@[k], rhs@[k])
                },
                Err(m) => {
                    &&& self@.len() != rhs@.len()
                    &&& m@ == "Vectors are not conformable for addition."@
                },
            },
    {
        if self.data.len() == rhs.data.len() {
            Ok(Vector { data: elementwise64(BinOp::Add, &self.data, &rhs.data) })
        } else {
            Err(String::from_str("Vectors are not conformable for addition."))
        }
    }

    /// Element-wise IEEE-754 double-precision difference, chunk by chunk;
    /// fails with a shape-mismatch message exactly when the lengths differ,
    /// and then produces no partial output.
    pub fn sub(self, rhs: Vector<u64>) -> (r: Result<Vector<u64>, String>)
        ensures
            match r {
                Ok(v) => {
                    &&& self@.len() == rhs@.len()
                    &&& v@.len() == self@.len()
                    &&& forall|k: int|
                        0 <= k < v@.len() ==> v@[k] == sub_bits64(self@[k], rhs@[k])
                },
                Err(m) => {
                    &&& self@.len() != rhs@.len()
                    &&& m@ == "Vectors are not conformable for subtraction."@
                },
            },
    {
        if self.data.len() == rhs.data.len() {
            Ok(Vector { data: elementwise64(BinOp::Sub, &self.data, &rhs.data) })
        } else {
            Err(String::from_str("Vectors are not conformable for subtraction."))
        }
    }

    /// Element-wise IEEE-754 double-precision product, chunk by chunk; fails
    /// with a shape-mismatch message exactly when the lengths differ, and
    /// then produces no partial output.
    pub fn mul(self, rhs: Vector<u64>) -> (r: Result<Vector<u64>, String>)
        ensures
            match r {
                Ok(v) => {
                    &&& self@.len() == rhs@.len()
                    &&& v@.len() == self@.len()
                    &&& forall|k: int|
                        0 <= k < v@.len() ==> v@[k] == mul_bits64(self@[k], rhs@[k])
                },
                Err(m) => {
                    &&& self@.len() != rhs@.len()
                    &&& m@ == "Vectors are not conformable for multiplication."@
                },
            },
    {
        if self.data.len() == rhs.data.len() {
            Ok(Vector { data: elementwise64(BinOp::Mul, &self.data, &rhs.data) })
        } else {
            Err(String::from_str("Vectors are not conformable for multiplication."))
        }
    }

    /// Element-wise IEEE-754 double-precision quotient, chunk by chunk;
    /// division by zero encodes an infinity or NaN per IEEE-754, never a
    /// fault. Fails with a shape-mismatch message exactly when the lengths
    /// differ, and then produces no partial output.
    pub fn div(self, rhs: Vector<u64>) -> (r: Result<Vector<u64>, String>)
        ensures
            match r {
                Ok(v) => {
                    &&& self@.len() == rhs@.len()
                    &&& v@.len() == self@.len()
                    &&& forall|k: int|
                        0 <= k < v@.len() ==> v@[k] == div_bits64(self@[k], rhs@[k])
                },
                Err(m) => {
                    &&& self@.len() != rhs@.len()
                    &&& m@ == "Vectors are not conformable for division."@
                },
            },
    {
        if self.data.len() == rhs.data.len() {
            Ok(Vector { data: elementwise64(BinOp::Div, &self.data, &rhs.data) })
        } else {
            Err(String::from_str("Vectors are not conformable for division."))
        }
    }

    /// Element-wise IEEE-754 double-precision negation, chunk by chunk; no
    /// failure is possible.
    pub fn neg(self) -> (r: Vector<u64>)
        ensures
            r@.len() == self@.len(),
            forall|k: int| 0 <= k < r@.len() ==> r@[k] == neg_bits64(self@[k]),
    {
        Vector { data: negate_chunks64(&self.data) }
    }

    /// IEEE-754 equality: true exactly when the lengths agree and every
    /// corresponding pair of elements compares equal (NaN elements compare
    /// unequal even to themselves; zeros of either sign compare equal).
    /// Differing lengths give `false`, not an error.
    pub fn eq(&self, other: &Vector<u64>) -> (r: bool)
        ensures
            r == eq_seqs64(self@, other@),
    {
        if self.data.len() == other.data.len() {
            eq_chunks64(&self.data, &other.data)
        } else {
            false
        }
    }
}

impl<T: Copy> Clone for Vector<T> {
    /// Deep copy: the result holds the same elements in fresh storage, fully
    /// independent of the original.
    fn clone(&self) -> (r: Self)
        ensures
            r@ == self@,
    {
        let n: usize = self.data.len();
        let mut data: Vec<T> = Vec::new();
        let mut i: usize = 0;
        while i < n
            invariant
                i <= n,
                n == self.data@.len(),
                data@ == self.data@.subrange(0, i as int),
            decreases n - i,
        {
            data.push(self.data[i]);
            i = i + 1;
        }
        proof {
            assert(self.data@.subrange(0, n as int) =~= self.data@);
        }
        Vector { data }
    }
}

} // verus!
