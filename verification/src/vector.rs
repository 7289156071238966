//! The vector container: an ordered sequence of scalars.

pub mod fns;
pub mod laws;
pub mod ops;

use vstd::prelude::*;

use crate::traits::Text;
use crate::utils::VectorError;

verus! {

/// An ordered sequence of scalars of type `T`.
///
/// The view of a `Vector<T>` is the mathematical sequence of its elements,
/// in coordinate order. Contents never change after construction except
/// through [`Vector::push`], which appends exactly one element.
#[derive(Debug, Clone, PartialEq, Eq)]
pub struct Vector<T>(Vec<T>);

impl<T> View for Vector<T> {
    type V = Seq<T>;

    closed spec fn view(&self) -> Seq<T> {
        self.0@
    }
}

impl<T> Vector<T> {
    /// Wraps the given elements, preserving their order.
    pub fn new(vec: Vec<T>) -> (v: Vector<T>)
        ensures
            v@ == vec@,
    {
        Vector(vec)
    }

    /// Returns the element count.
    pub fn len(&self) -> (n: usize)
        ensures
            n == self@.len(),
    {
        self.0.len()
    }

    /// Returns true if the vector has no elements.
    pub fn is_empty(&self) -> (b: bool)
        ensures
            b <==> self@.len() == 0,
    {
        self.0.len() == 0
    }

    /// Borrows the elements in index order, for iteration.
    pub fn iter(&self) -> (r: &Vec<T>)
        ensures
            r@ == self@,
    {
        &self.0
    }

    /// Appends one element at the end, growing the length by one.
    pub fn push(&mut self, val: T)
        ensures
            final(self)@ == old(self)@.push(val),
    {
        self.0.push(val)
    }

    /// Returns a reference to element `i`, or reports the offending index.
    pub fn index(&self, i: usize) -> (r: Result<&T, VectorError>)
        ensures
            i < self@.len() ==> (r matches Ok(e) && *e == self@[i as int]),
            i >= self@.len() ==> r == Err::<&T, VectorError>(
                VectorError::IndexOutOfRange { index: i, len: self@.len() as usize },
            ),
    {
        if i < self.0.len() {
            Ok(&self.0[i])
        } else {
            Err(VectorError::IndexOutOfRange { index: i, len: self.0.len() })
        }
    }
}

/// The comma-space separated join of the renderings of the elements of `s`.
pub open spec fn join_texts<T: Text>(s: Seq<T>) -> Seq<char>
    decreases s.len(),
{
    if s.len() == 0 {
        Seq::empty()
    } else if s.len() == 1 {
        s[0].text_spec()
    } else {
        join_texts(s.drop_last()) + seq![',', ' '] + s.last().text_spec()
    }
}

impl<T: Text> Text for Vector<T> {
    /// `[e0, e1, ..., en-1]`: the elements' own renderings, comma-space
    /// separated, wrapped in square brackets; `[]` when empty.
    open spec fn text_spec(&self) -> Seq<char> {
        seq!['['] + join_texts(self@) + seq![']']
    }

    fn text(&self) -> (r: Vec<char>) {
        let dim = self.0.len();
        let mut out: Vec<char> = Vec::new();
        out.push('[');
        proof {
            assert(out@ =~= seq!['['] + join_texts(self@.take(0)));
        }
        let mut i: usize = 0;
        while i < dim
            invariant
                dim == self@.len(),
                i <= dim,
                out@ == seq!['['] + join_texts(self@.take(i as int)),
            decreases dim - i,
        {
            if i > 0 {
                out.push(',');
                out.push(' ');
            }
            let mut t = self.0[i].text();
            out.append(&mut t);
            proof {
                assert(self@.take(i + 1 as int).drop_last() =~= self@.take(i as int));
                assert(self@.take(i + 1 as int).last() == self@[i as int]);
                assert(out@ =~= seq!['['] + join_texts(self@.take(i + 1 as int)));
            }
            i = i + 1;
        }
        out.push(']');
        proof {
            assert(self@.take(dim as int) =~= self@);
            assert(out@ =~= self.text_spec());
        }
        out
    }
}

} // verus!
