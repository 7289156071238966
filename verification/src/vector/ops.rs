//! Elementwise arithmetic on vectors: add, subtract, scalar multiply and
//! divide, and the elementwise (Hadamard) product.

use vstd::prelude::*;

use crate::traits::Num;
use crate::utils::VectorError;
use crate::utils::assert_lens;
use crate::vector::Vector;

verus! {

/// The elementwise sum of two equal-length sequences.
pub open spec fn add_seq<T: Num>(v: Seq<T>, w: Seq<T>) -> Seq<T> {
    Seq::new(v.len(), |i: int| v[i].add_spec(w[i]))
}

/// The elementwise difference of two equal-length sequences.
pub open spec fn sub_seq<T: Num>(v: Seq<T>, w: Seq<T>) -> Seq<T> {
    Seq::new(v.len(), |i: int| v[i].sub_spec(w[i]))
}

/// The elementwise (Hadamard) product of two equal-length sequences.
pub open spec fn mul_seq<T: Num>(v: Seq<T>, w: Seq<T>) -> Seq<T> {
    Seq::new(v.len(), |i: int| v[i].mul_spec(w[i]))
}

/// Every element multiplied by the scalar `s` (element on the left).
pub open spec fn scalar_mul_seq<T: Num>(v: Seq<T>, s: T) -> Seq<T> {
    Seq::new(v.len(), |i: int| v[i].mul_spec(s))
}

/// Every element divided by the scalar `s`.
pub open spec fn scalar_div_seq<T: Num>(v: Seq<T>, s: T) -> Seq<T> {
    Seq::new(v.len(), |i: int| v[i].div_spec(s))
}

impl<T: Num> Vector<T> {
    /// Elementwise sum. Requires equal lengths, reported otherwise.
    pub fn add(&self, w: &Vector<T>) -> (r: Result<Vector<T>, VectorError>)
        ensures
            self@.len() == w@.len() ==> (r matches Ok(u) && u@ == add_seq(self@, w@)),
            self@.len() != w@.len() ==> r == Err::<Vector<T>, VectorError>(
                VectorError::LengthMismatch {
                    left: self@.len() as usize,
                    right: w@.len() as usize,
                },
            ),
    {
        if let Err(e) = assert_lens(self, w) {
            return Err(e);
        }
        let dim = self.len();
        let mut t: Vec<T> = Vec::new();
        let mut i: usize = 0;
        while i < dim
            invariant
                dim == self@.len() == w@.len(),
                i <= dim,
                t@.len() == i,
                forall|j: int| 0 <= j < i ==> t@[j] == self@[j].add_spec(w@[j]),
            decreases dim - i,
        {
            let x = *self.index(i).unwrap();
            let y = *w.index(i).unwrap();
            t.push(x.add(y));
            i = i + 1;
        }
        assert(t@ =~= add_seq(self@, w@));
        Ok(Vector::new(t))
    }

    /// Elementwise difference. Requires equal lengths, reported otherwise.
    pub fn sub(&self, w: &Vector<T>) -> (r: Result<Vector<T>, VectorError>)
        ensures
            self@.len() == w@.len() ==> (r matches Ok(u) && u@ == sub_seq(self@, w@)),
            self@.len() != w@.len() ==> r == Err::<Vector<T>, VectorError>(
                VectorError::LengthMismatch {
                    left: self@.len() as usize,
                    right: w@.len() as usize,
                },
            ),
    {
        if let Err(e) = assert_lens(self, w) {
            return Err(e);
        }
        let dim = self.len();
        let mut t: Vec<T> = Vec::new();
        let mut i: usize = 0;
        while i < dim
            invariant
                dim == self@.len() == w@.len(),
                i <= dim,
                t@.len() == i,
                forall|j: int| 0 <= j < i ==> t@[j] == self@[j].sub_spec(w@[j]),
            decreases dim - i,
        {
            let x = *self.index(i).unwrap();
            let y = *w.index(i).unwrap();
            t.push(x.sub(y));
            i = i + 1;
        }
        assert(t@ =~= sub_seq(self@, w@));
        Ok(Vector::new(t))
    }

    /// Elementwise (Hadamard) product. Requires equal lengths, reported
    /// otherwise.
    pub fn mul(&self, w: &Vector<T>) -> (r: Result<Vector<T>, VectorError>)
        ensures
            self@.len() == w@.len() ==> (r matches Ok(u) && u@ == mul_seq(self@, w@)),
            self@.len() != w@.len() ==> r == Err::<Vector<T>, VectorError>(
                VectorError::LengthMismatch {
                    left: self@.len() as usize,
                    right: w@.len() as usize,
                },
            ),
    {
        if let Err(e) = assert_lens(self, w) {
            return Err(e);
        }
        let dim = self.len();
        let mut t: Vec<T> = Vec::new();
        let mut i: usize = 0;
        while i < dim
            invariant
                dim == self@.len() == w@.len(),
                i <= dim,
                t@.len() == i,
                forall|j: int| 0 <= j < i ==> t@[j] == self@[j].mul_spec(w@[j]),
            decreases dim - i,
        {
            let x = *self.index(i).unwrap();
            let y = *w.index(i).unwrap();
            t.push(x.mul(y));
            i = i + 1;
        }
        assert(t@ =~= mul_seq(self@, w@));
        Ok(Vector::new(t))
    }

    /// Multiplies every element by the scalar `s`.
    pub fn scalar_mul(&self, s: T) -> (r: Vector<T>)
        ensures
            r@ == scalar_mul_seq(self@, s),
    {
        let dim = self.len();
        let mut t: Vec<T> = Vec::new();
        let mut i: usize = 0;
        while i < dim
            invariant
                dim == self@.len(),
                i <= dim,
                t@.len() == i,
                forall|j: int| 0 <= j < i ==> t@[j] == self@[j].mul_spec(s),
            decreases dim - i,
        {
            let x = *self.index(i).unwrap();
            t.push(x.mul(s));
            i = i + 1;
        }
        assert(t@ =~= scalar_mul_seq(self@, s));
        Vector::new(t)
    }

    /// Divides every element by the scalar `s`. What a zero `s` means is up
    /// to the scalar type's own division.
    pub fn div(&self, s: T) -> (r: Vector<T>)
        ensures
            r@ == scalar_div_seq(self@, s),
    {
        let dim = self.len();
        let mut t: Vec<T> = Vec::new();
        let mut i: usize = 0;
        while i < dim
            invariant
                dim == self@.len(),
                i <= dim,
                t@.len() == i,
                forall|j: int| 0 <= j < i ==> t@[j] == self@[j].div_spec(s),
            decreases dim - i,
        {
            let x = *self.index(i).unwrap();
            t.push(x.div(s));
            i = i + 1;
        }
        assert(t@ =~= scalar_div_seq(self@, s));
        Vector::new(t)
    }
}

} // verus!
