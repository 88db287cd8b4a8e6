//! A type-tagged record codec.
//!
//! A record carries a compile-time marker kind as a zero-sized type
//! parameter. Encoding represents that kind as its canonical string label;
//! decoding validates the label against the statically expected kind and
//! rejects any other tag.

pub mod codec;
pub mod errors;
pub mod registry;
