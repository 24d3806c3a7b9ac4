//! The Remote-ID message family: a shared capability contract
//! (decode from bytes, encode to bytes) over the fixed set of
//! message kinds, plus one module per kind and the enclosing
//! packet envelope.

pub mod base_message;
pub mod message;
pub mod packet_message;
pub mod position_vector_message;
pub mod system_message;
