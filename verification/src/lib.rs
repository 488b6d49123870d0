//! Zero-copy archival of network address types.
//!
//! A value is archived in two phases: a fallible `serialize` step that
//! computes the ancillary data (the resolver) a later write needs, and an
//! infallible `resolve` step that, given the value's final absolute position
//! inside a destination buffer, writes its complete archived representation
//! into that slot. The archived bytes have one deterministic layout per type:
//! multi-segment addresses store their segments in big-endian order, other
//! integer fields are stored little-endian, and sum types store a one-byte
//! discriminant (assigned in declaration order) followed by the selected
//! variant's payload. Archived values decode back to owned values, and
//! equality and ordering between the two forms go through that canonical
//! decoding, never through raw bytes.
//!
//! The crate is laid out by concern: [`addr`] holds the owned domain
//! types, [`archived`] their archived counterparts, [`layout`] the
//! declared wire format, [`protocol`] the position-aware writes and the
//! readers, [`adapters`] the fallible serialize and deserialize steps,
//! [`compare`] the cross-representation equality and ordering bridge,
//! [`laws`] the guarantees tying them together, and [`config`] the
//! per-type configuration schema a declarative front-end supplies.

pub mod adapters;
pub mod addr;
pub mod archived;
pub mod compare;
pub mod config;
pub mod laws;
pub mod layout;
pub mod protocol;
