//! Wire-format primitives: length-prefixed frames over a byte stream, packing
//! of several byte fields into one buffer, a versioned text envelope, and
//! the signed identity token of a client that is built from them.
//!
//! Beside them stand the small value types of a service: strings, numbers
//! and identifiers, pagination, answers and errors, the tree of an XML
//! document, and the text of colours.

pub mod api;
pub mod base62;
pub mod buffer;
pub mod client_id;
pub mod color;
pub mod encoder;
pub mod errno;
pub mod handler;
pub mod id;
pub mod light_string;
pub mod middleware;
pub mod newtypes;
pub mod pagination;
pub mod protocol;
pub mod shared_string;
pub mod tuple;
pub mod varint;
pub mod version_data;
pub mod xml;

pub use light_string::LightString;
pub use shared_string::SharedString;
