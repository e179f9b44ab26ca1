//! Bidirectional value marshaling between a column-oriented wire protocol's
//! typed value system and a dynamically-typed host object model.
//!
//! The crate models both sides as plain data: the protocol side as a column
//! type descriptor tree paired with decoded protocol values, and the host
//! side as a tagged dynamic value. The encoder classifies a dynamic value
//! into a wire-value kind and serializes it into the protocol's binary
//! format; the decoder walks a descriptor tree and reconstructs the host
//! value it describes. A row mapper and a consistency-level translation
//! round out the boundary.

pub mod consistency;
pub mod cql;
pub mod decode;
pub mod encode;
pub mod host;
pub mod laws;
pub mod rows;
pub mod text;
pub mod uuids;
pub mod wire;
