//! Typed field values of the messaging protocol: field identifiers, the
//! kinds of value each field carries, the values themselves, and the length
//! prefix that frames a message on a stream.

pub mod data_container;
pub mod data_types;
pub mod framing;
pub mod text;
