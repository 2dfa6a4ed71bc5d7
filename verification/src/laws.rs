//! General properties of the element-wise operations, stated over the same
//! spec functions that the operations' contracts use.

use vstd::prelude::*;

use crate::ops::eq_bits32;
use crate::ops::eq_bits64;
use crate::ops::eq_seqs32;
use crate::ops::eq_seqs64;
use crate::ops::is_nan32;
use crate::ops::is_nan64;
use crate::ops::neg_bits32;
use crate::ops::neg_bits64;

verus! {

/// IEEE-754 negation of a single-precision encoding is involutive: flipping
/// the sign bit twice restores every encoding, NaN included.
pub proof fn lemma_neg_bits32_involution(a: u32)
    ensures
        neg_bits32(neg_bits32(a)) == a,
{
    assert((a ^ 0x8000_0000u32) ^ 0x8000_0000u32 == a) by (bit_vector);
}

/// IEEE-754 negation of a double-precision encoding is involutive: flipping
/// the sign bit twice restores every encoding, NaN included.
pub proof fn lemma_neg_bits64_involution(a: u64)
    ensures
        neg_bits64(neg_bits64(a)) == a,
{
    assert((a ^ 0x8000_0000_0000_0000u64) ^ 0x8000_0000_0000_0000u64 == a) by (bit_vector);
}

/// Negating a single-precision vector twice restores it element for element:
/// `once` and `twice` are related to their operands exactly as
/// `Vector::<u32>::neg` ensures of its result.
pub proof fn lemma_neg_involution32(v: Seq<u32>, once: Seq<u32>, twice: Seq<u32>)
    requires
        once.len() == v.len(),
        forall|k: int| 0 <= k < v.len() ==> once[k] == neg_bits32(v[k]),
        twice.len() == once.len(),
        forall|k: int| 0 <= k < once.len() ==> twice[k] == neg_bits32(once[k]),
    ensures
        twice == v,
{
    assert forall|k: int| 0 <= k < v.len() implies twice[k] == v[k] by {
        lemma_neg_bits32_involution(v[k]);
    }
    assert(twice =~= v);
}

/// Negating a double-precision vector twice restores it element for element:
/// `once` and `twice` are related to their operands exactly as
/// `Vector::<u64>::neg` ensures of its result.
pub proof fn lemma_neg_involution64(v: Seq<u64>, once: Seq<u64>, twice: Seq<u64>)
    requires
        once.len() == v.len(),
        forall|k: int| 0 <= k < v.len() ==> once[k] == neg_bits64(v[k]),
        twice.len() == once.len(),
        forall|k: int| 0 <= k < once.len() ==> twice[k] == neg_bits64(once[k]),
    ensures
        twice == v,
{
    assert forall|k: int| 0 <= k < v.len() implies twice[k] == v[k] by {
        lemma_neg_bits64_involution(v[k]);
    }
    assert(twice =~= v);
}

/// Equality is reflexive on single-precision sequences free of NaN
/// encodings: a vector compares equal to its own clone. A NaN element
/// defeats this, since IEEE-754 compares NaN unequal even to itself.
pub proof fn lemma_eq_reflexive32(a: Seq<u32>)
    requires
        forall|k: int| 0 <= k < a.len() ==> !is_nan32(a[k]),
    ensures
        eq_seqs32(a, a),
{
}

/// Equality is reflexive on double-precision sequences free of NaN
/// encodings: a vector compares equal to its own clone. A NaN element
/// defeats this, since IEEE-754 compares NaN unequal even to itself.
pub proof fn lemma_eq_reflexive64(a: Seq<u64>)
    requires
        forall|k: int| 0 <= k < a.len() ==> !is_nan64(a[k]),
    ensures
        eq_seqs64(a, a),
{
}

/// Two single-precision sequences with an IEEE-unequal pair of corresponding
/// elements never compare equal, wherever the pair stands — in particular
/// when only the last (tail) element differs.
pub proof fn lemma_eq_detects_difference32(a: Seq<u32>, b: Seq<u32>, k: int)
    requires
        a.len() == b.len(),
        0 <= k < a.len(),
        !eq_bits32(a[k], b[k]),
    ensures
        !eq_seqs32(a, b),
{
}

/// Two double-precision sequences with an IEEE-unequal pair of corresponding
/// elements never compare equal, wherever the pair stands — in particular
/// when only the last (tail) element differs.
pub proof fn lemma_eq_detects_difference64(a: Seq<u64>, b: Seq<u64>, k: int)
    requires
        a.len() == b.len(),
        0 <= k < a.len(),
        !eq_bits64(a[k], b[k]),
    ensures
        !eq_seqs64(a, b),
{
}

} // verus!
