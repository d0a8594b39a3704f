//! Geometry with units: lengths and the ratios between their units, points of
//! two to four coordinates, sizes, and the matrices of affine and projective
//! transforms.
//!
//! A unit is a type that is never instantiated. A [`length::Length`] carries
//! one, a [`scale_factor::ScaleFactor`] carries two, and the compiler keeps
//! apart what is measured in different units: nothing of a unit is stored or
//! tested when the program runs.
//!
//! Every type is generic in its payload, the numeric type of its numbers, and
//! every function is verified for every payload: it calls an operator of the
//! payload only where the contract of the function says that the operation
//! is defined, and what it returns is stated over what the payload's
//! operators are specified to give. For the primitive integers that
//! pins every result, and shows that nothing overflows and nothing is
//! divided by zero. Of a payload whose operators have no such description,
//! as the floating-point types, the contracts say nothing; the same code runs
//! on it.
//!
//! The laws that hold of the library's arithmetic are stated and proved for
//! the integral payloads, see [`num::Integral`].

pub mod approxeq;
pub mod arith;
pub mod length;
pub mod matrix2d;
pub mod matrix4d;
pub mod num;
pub mod point;
pub mod scale_factor;
pub mod size;
