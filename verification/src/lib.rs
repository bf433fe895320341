//! Codec derivation for C-like enumerations and single-field wrapper types.
//!
//! Given a type declaration (an enumeration whose variants carry no payload,
//! or a tuple-style type with exactly one field) and its naming directives,
//! the library derives a wire codec: an acceptance predicate over wire type
//! descriptors, a decoder from textual wire payloads, and an encoder back to
//! the wire. The declaration itself comes from a host front end as a plain
//! structured value; the derived codec is likewise a plain value, interpreted
//! by the acceptance, decode and encode procedures of this crate.

pub mod accepts;
pub mod classify;
pub mod codec;
pub mod decl;
pub mod fromsql;
pub mod laws;
pub mod overrides;
pub mod tosql;
