//! A foreign-pointer validation and lifetime-bridging layer.
//!
//! A native host runtime hands plugin code untyped handles for the duration
//! of a single activation. Every foreign struct kind carries a structural
//! tag (a fixed sentinel) at a known place; before any field is touched, a
//! handle is run through the tagged-struct validator, which confirms that
//! the handle is non-null and that the pointee carries the expected tag,
//! and only then yields a reference scoped to the activation.
//!
//! On top of the validator sit derived accessors that walk the foreign
//! object graph (context to request to session), re-validating at every
//! hop, and capability views that expose a narrow filter-chain interface
//! over a validated context and a caller-owned collection of descriptors.

pub mod filters;
pub mod handles;
pub mod validate;
