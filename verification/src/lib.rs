//! A store for one unsigned 32-bit value.
//!
//! [`Survey`] owns a single `u32`. It is created holding a chosen value (or
//! zero), every write replaces what it holds in full, and a read returns the
//! value written last. Each operation is total: no value of `u32` is refused.
//!
//! `store` holds the type, its model and its four operations; `lemmas` proves
//! what they add up to over constructions and runs of writes.

pub mod lemmas;
pub mod store;

pub use store::Survey;
