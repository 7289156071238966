//! The geometric vector functions: dot, cross and outer products, norm,
//! and unit-vector normalization.

use vstd::prelude::*;

use crate::traits::Num;
use crate::utils::VectorError;
use crate::utils::assert_len;
use crate::utils::assert_lens;
use crate::vector::Vector;
use crate::vector::ops::scalar_div_seq;

verus! {

/// The dot product of two equal-length sequences: the sum of the
/// elementwise products, folded from the left starting at zero.
pub open spec fn dot_seq<T: Num>(v: Seq<T>, w: Seq<T>) -> T
    decreases v.len(),
{
    if v.len() == 0 {
        T::zero_spec()
    } else {
        dot_seq(v.drop_last(), w.drop_last()).add_spec(v.last().mul_spec(w.last()))
    }
}

/// The Euclidean norm: the principal square root of the self dot product.
/// For scalars where the self dot product can be negative or complex this
/// is deliberately still the raw square root of that value.
pub open spec fn norm_seq<T: Num>(v: Seq<T>) -> T {
    dot_seq(v, v).sqrt_spec()
}

/// The outer product grid: row `i` is `w` with every element multiplied by
/// `v[i]` on the left.
pub open spec fn outer_seq<T: Num>(v: Seq<T>, w: Seq<T>) -> Seq<Seq<T>> {
    Seq::new(v.len(), |i: int| Seq::new(w.len(), |j: int| v[i].mul_spec(w[j])))
}

/// The 3-dimensional cross product, by the determinant expansion formula.
pub open spec fn cross_seq<T: Num>(v: Seq<T>, w: Seq<T>) -> Seq<T> {
    seq![
        v[1].mul_spec(w[2]).sub_spec(v[2].mul_spec(w[1])),
        v[2].mul_spec(w[0]).sub_spec(v[0].mul_spec(w[2])),
        v[0].mul_spec(w[1]).sub_spec(v[1].mul_spec(w[0])),
    ]
}

/// Calculates the dot product of two equal-length vectors, reporting a
/// length mismatch otherwise.
pub fn dot<T: Num>(v: &Vector<T>, w: &Vector<T>) -> (r: Result<T, VectorError>)
    ensures
        v@.len() == w@.len() ==> (r matches Ok(p) && p == dot_seq(v@, w@)),
        v@.len() != w@.len() ==> r == Err::<T, VectorError>(
            VectorError::LengthMismatch { left: v@.len() as usize, right: w@.len() as usize },
        ),
{
    if let Err(e) = assert_lens(v, w) {
        return Err(e);
    }
    let dim = v.len();
    let mut prod = T::zero();
    let mut i: usize = 0;
    while i < dim
        invariant
            dim == v@.len() == w@.len(),
            i <= dim,
            prod == dot_seq(v@.take(i as int), w@.take(i as int)),
        decreases dim - i,
    {
        let x = *v.index(i).unwrap();
        let y = *w.index(i).unwrap();
        prod = prod.add(x.mul(y));
        proof {
            assert(v@.take(i + 1 as int).drop_last() =~= v@.take(i as int));
            assert(w@.take(i + 1 as int).drop_last() =~= w@.take(i as int));
        }
        i = i + 1;
    }
    proof {
        assert(v@.take(dim as int) =~= v@);
        assert(w@.take(dim as int) =~= w@);
    }
    Ok(prod)
}

/// Calculates the norm of a vector. The norm of an empty vector is zero.
pub fn norm<T: Num>(v: &Vector<T>) -> (r: T)
    ensures
        r == norm_seq(v@),
        v@.len() == 0 ==> r == T::zero_spec(),
{
    let p = dot(v, v).unwrap();
    proof {
        if v@.len() == 0 {
            T::sqrt_of_zero();
        }
    }
    p.sqrt()
}

/// Calculates the outer product: a vector of rows, where row `i` holds
/// `v[i]` times each element of `w`.
pub fn outer<T: Num>(v: &Vector<T>, w: &Vector<T>) -> (r: Vector<Vector<T>>)
    ensures
        r@.len() == v@.len(),
        forall|i: int| 0 <= i < v@.len() ==> (#[trigger] r@[i])@ == outer_seq(v@, w@)[i],
        forall|i: int, j: int|
            0 <= i < v@.len() && 0 <= j < w@.len() ==> #[trigger] r@[i]@[j] == v@[i].mul_spec(
                w@[j],
            ),
{
    let vdim = v.len();
    let wdim = w.len();
    let mut rows: Vec<Vector<T>> = Vec::new();
    let mut i: usize = 0;
    while i < vdim
        invariant
            vdim == v@.len(),
            wdim == w@.len(),
            i <= vdim,
            rows@.len() == i,
            forall|ii: int| 0 <= ii < i ==> (#[trigger] rows@[ii])@ == outer_seq(v@, w@)[ii],
        decreases vdim - i,
    {
        let ve = *v.index(i).unwrap();
        let mut row: Vec<T> = Vec::new();
        let mut j: usize = 0;
        while j < wdim
            invariant
                wdim == w@.len(),
                j <= wdim,
                row@.len() == j,
                ve == v@[i as int],
                0 <= i < v@.len(),
                forall|jj: int| 0 <= jj < j ==> row@[jj] == v@[i as int].mul_spec(w@[jj]),
            decreases wdim - j,
        {
            let we = *w.index(j).unwrap();
            row.push(ve.mul(we));
            j = j + 1;
        }
        proof {
            assert(row@ =~= outer_seq(v@, w@)[i as int]);
        }
        rows.push(Vector::new(row));
        i = i + 1;
    }
    Vector::new(rows)
}

/// Calculates the cross product of two 3-dimensional vectors, reporting
/// the dimension of the first operand that is not 3.
pub fn cross<T: Num>(v: &Vector<T>, w: &Vector<T>) -> (r: Result<Vector<T>, VectorError>)
    ensures
        v@.len() == 3 && w@.len() == 3 ==> (r matches Ok(u) && u@ == cross_seq(v@, w@)),
        v@.len() != 3 ==> r == Err::<Vector<T>, VectorError>(
            VectorError::InvalidDimension { expected: 3, actual: v@.len() as usize },
        ),
        v@.len() == 3 && w@.len() != 3 ==> r == Err::<Vector<T>, VectorError>(
            VectorError::InvalidDimension { expected: 3, actual: w@.len() as usize },
        ),
{
    if let Err(e) = assert_len(v, 3) {
        return Err(e);
    }
    if let Err(e) = assert_len(w, 3) {
        return Err(e);
    }
    let v0 = *v.index(0).unwrap();
    let v1 = *v.index(1).unwrap();
    let v2 = *v.index(2).unwrap();
    let w0 = *w.index(0).unwrap();
    let w1 = *w.index(1).unwrap();
    let w2 = *w.index(2).unwrap();

    let x = v1.mul(w2).sub(v2.mul(w1));
    let y = v2.mul(w0).sub(v0.mul(w2));
    let z = v0.mul(w1).sub(v1.mul(w0));

    let mut t: Vec<T> = Vec::new();
    t.push(x);
    t.push(y);
    t.push(z);
    assert(t@ =~= cross_seq(v@, w@));
    Ok(Vector::new(t))
}

/// Calculates the unit vector: the vector divided by its own norm. What a
/// zero norm means is up to the scalar type's own division.
pub fn unit_vector<T: Num>(v: &Vector<T>) -> (r: Vector<T>)
    ensures
        r@ == scalar_div_seq(v@, norm_seq(v@)),
{
    let n = norm(v);
    v.div(n)
}

} // verus!
