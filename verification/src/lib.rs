//! A clone-on-write sequence container together with the in-place
//! absolute-value transform that exercises it.
//!
//! [`container::CowSequence`] holds either a shared view of an externally
//! owned buffer or an exclusively owned copy, and defers the copy until a
//! caller first asks for mutable access. [`transform::abs_all`] scans such a
//! container and replaces each negative element by its absolute value,
//! requesting mutable access only when a write is actually needed, so that a
//! container whose elements are all non-negative is never copied.

pub mod container;
pub mod transform;
