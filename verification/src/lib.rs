//! Wire codec of a hash-table node on a 256-slot key ring.
//!
//! - `util` and `pdu_io`: the big-endian forms of `u8`, `u16` and `u32`.
//! - `schema`: the record engine, which encodes and decodes any ordered list
//!   of fixed-width fields from its schema.
//! - `net_pdus`, `stun_pdus`: the fixed-width messages, each a record.
//! - `text`, `val_pdus`: the value-store messages, with their identifier and
//!   their length-prefixed texts.
//! - `pdu`: the union of all messages, the table of discriminants, and
//!   dispatch from a raw buffer.
//!
//! Decoding never fails hard: a buffer that does not yet hold a whole
//! message gives `None`, or `NeedMoreData` from the dispatcher, and the
//! caller tries again when more bytes have come.

pub mod net_pdus;
pub mod pdu;
pub mod pdu_io;
pub mod schema;
pub mod stun_pdus;
pub mod text;
pub mod util;
pub mod val_pdus;
