//! The algebraic laws of the vector operations, proved once and for all.
//!
//! The laws that hold for every scalar satisfying the numeric capability
//! are generic. The laws that need concrete algebra (a literal two, a
//! minus one, exact distributivity) are stated for the wrapping `u64`
//! scalar, the ring where they hold with no rounding; for floating-point
//! scalars distributivity only holds approximately.

use vstd::prelude::*;

use crate::scalar::lemma_u64_double;
use crate::scalar::lemma_u64_mul_distributes;
use crate::scalar::lemma_u64_mul_neg_one;
use crate::traits::Num;
use crate::vector::fns::cross_seq;
use crate::vector::fns::dot_seq;
use crate::vector::ops::add_seq;
use crate::vector::ops::scalar_mul_seq;

verus! {

/// Law: for every vector, adding it to itself is scaling it by two.
pub proof fn lemma_add_self_doubles(v: Seq<u64>)
    ensures
        add_seq(v, v) == scalar_mul_seq(v, 2u64),
{
    assert forall|i: int| 0 <= i < v.len() implies add_seq(v, v)[i] == scalar_mul_seq(
        v,
        2u64,
    )[i] by {
        lemma_u64_double(v[i]);
    }
    assert(add_seq(v, v) =~= scalar_mul_seq(v, 2u64));
}

/// Law: for all vectors of equal length, the dot product is commutative.
/// This holds for every scalar type, because scalar multiplication
/// commutes and both folds add the terms in the same order.
pub proof fn lemma_dot_commutative<T: Num>(v: Seq<T>, w: Seq<T>)
    requires
        v.len() == w.len(),
    ensures
        dot_seq(v, w) == dot_seq(w, v),
    decreases v.len(),
{
    if v.len() > 0 {
        lemma_dot_commutative(v.drop_last(), w.drop_last());
        T::mul_commutes(v.last(), w.last());
    }
}

/// Law: scalar multiplication distributes over vector addition.
pub proof fn lemma_scalar_mul_distributes(v: Seq<u64>, w: Seq<u64>, s: u64)
    requires
        v.len() == w.len(),
    ensures
        scalar_mul_seq(add_seq(v, w), s) == add_seq(scalar_mul_seq(v, s), scalar_mul_seq(w, s)),
{
    assert forall|i: int| 0 <= i < v.len() implies scalar_mul_seq(add_seq(v, w), s)[i] == add_seq(
        scalar_mul_seq(v, s),
        scalar_mul_seq(w, s),
    )[i] by {
        lemma_u64_mul_distributes(v[i], w[i], s);
    }
    assert(scalar_mul_seq(add_seq(v, w), s) =~= add_seq(
        scalar_mul_seq(v, s),
        scalar_mul_seq(w, s),
    ));
}

/// Law: the cross product is anti-commutative: crossing the other way
/// round and scaling by `u64::MAX` (which is -1 modulo 2^64) gives the
/// same vector back.
pub proof fn lemma_cross_antisymmetric(v: Seq<u64>, w: Seq<u64>)
    requires
        v.len() == 3,
        w.len() == 3,
    ensures
        cross_seq(v, w) == scalar_mul_seq(cross_seq(w, v), u64::MAX),
{
    Num::mul_commutes(w[1], v[2]);
    Num::mul_commutes(w[2], v[1]);
    lemma_u64_mul_neg_one(v[2].mul_spec(w[1]), v[1].mul_spec(w[2]));
    Num::mul_commutes(w[2], v[0]);
    Num::mul_commutes(w[0], v[2]);
    lemma_u64_mul_neg_one(v[0].mul_spec(w[2]), v[2].mul_spec(w[0]));
    Num::mul_commutes(w[0], v[1]);
    Num::mul_commutes(w[1], v[0]);
    lemma_u64_mul_neg_one(v[1].mul_spec(w[0]), v[0].mul_spec(w[1]));
    assert(cross_seq(v, w) =~= scalar_mul_seq(cross_seq(w, v), u64::MAX));
}

} // verus!
