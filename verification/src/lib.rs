//! Serialize iterator-like data sources as sequences and maps, against an
//! abstract sink interface, without first collecting them into a container.
//!
//! The crate has three parts:
//!
//! - [`seq::serialize`] drains a fresh pass over an iterable into a sequence
//!   sink, element by element, in order.
//! - [`map::serialize`] does the same for an iterable of key/value pairs and a
//!   map sink.
//! - [`CloneOnce`] wraps a single-pass iterator so that it can satisfy the
//!   "produce a fresh pass" requirement exactly once: producing a pass moves
//!   the iterator out, and the original refuses any further use.

pub mod iterable;
pub mod map;
mod once;
pub mod seq;

pub use once::CloneOnce;
pub use once::lemma_relocated_holds_nothing;
