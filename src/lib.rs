//! Hides a byte payload in the least-significant bits of a PCM sample stream
//! and recovers it, with a companion stream cipher for the payload.

pub mod frame;
pub mod codec;
pub mod encryption;
pub mod wav;
