//! A small generic linear-algebra vector library.
//!
//! A [`Vector`] is an ordered, growable sequence of scalars. The scalar type
//! is anything implementing the [`Num`] capability trait: addition,
//! subtraction, multiplication, division, a principal square root and an
//! additive identity. Every operation carries a contract that pins down the
//! result element by element in terms of the scalar trait's specification
//! functions.

pub mod scalar;
pub mod traits;
pub mod utils;
pub mod vector;

pub use crate::traits::Num;
pub use crate::traits::Sqrt;
pub use crate::traits::Text;
pub use crate::utils::VectorError;
pub use crate::utils::assert_len;
pub use crate::utils::assert_lens;
pub use crate::vector::Vector;
pub use crate::vector::fns::cross;
pub use crate::vector::fns::dot;
pub use crate::vector::fns::norm;
pub use crate::vector::fns::outer;
pub use crate::vector::fns::unit_vector;
