//! Generic group-element and scalar-field abstractions for cryptography based on
//! the discrete logarithm.
//!
//! A concrete implementation supplies a field type and a group type that meet the
//! contracts of [`ScalarNumber`] and [`DisLogPoint`]. Protocol code then works with
//! the wrappers [`Scalar`] and [`Point`] only, whose operators are verified against
//! those contracts. [`Bytes`] is the byte codec of both, and [`Hasher`] is the
//! contract of an incremental digest. The laws that follow from the contracts are
//! in [`laws`], and [`toy`] holds the smallest types that meet them.
pub mod bytes;
pub mod hasher;
pub mod laws;
pub mod point;
pub mod point_ops;
pub mod scalar;
pub mod scalar_ops;
pub mod toy;

pub use bytes::Bytes;
pub use hasher::Hasher;
pub use point::{DisLogPoint, Point};
pub use point_ops::dh;
pub use scalar::{Scalar, ScalarNumber};
