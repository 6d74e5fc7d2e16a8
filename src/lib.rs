//! A streaming message body layer: a capability that chunked producers
//! expose, an adapter that maps their chunks and errors into canonical
//! types, and an owned, type-erased body built from either.

pub mod body;
pub mod box_body;
pub mod laws;
pub mod map_body;
pub mod poll;
pub mod status;
