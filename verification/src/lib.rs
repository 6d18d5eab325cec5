//! Quaternion algebra over exact 64-bit integer components.
//!
//! The value type [`Quaternion`] represents `r + x*i + y*j + z*k` and supports
//! addition, subtraction, the non-commutative Hamilton (Grassman) product,
//! conjugation, scalar scaling, the commutator-based cross product, and a
//! commutativity test. Every operation carries a contract that pins its result
//! down against the mathematical model [`quaternion::QuatView`], and the
//! algebraic laws of the type are proved in [`laws`].

pub mod laws;
pub mod quaternion;

pub use crate::quaternion::QuatView;
pub use crate::quaternion::Quaternion;
