//! A verified codec for a fixed little-endian binary packet format used by a
//! remote command protocol: a 4-byte length-prefixed frame carrying an id, a
//! type tag, and a body, with all boundary validation on the decode path.

pub mod errors;
pub mod packet;
pub mod wire;
