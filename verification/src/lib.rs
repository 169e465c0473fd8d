//! A streaming parser for ISO-BMFF-style box headers.
//!
//! A box is a length-prefixed, type-tagged chunk of bytes. This crate reads
//! one box header from the front of a byte buffer and reports either the
//! parsed header together with the unconsumed remainder, a request for more
//! input when the buffer is too short, or a malformed-input verdict when the
//! declared size cannot contain the header itself.

pub mod be;
pub mod header;
