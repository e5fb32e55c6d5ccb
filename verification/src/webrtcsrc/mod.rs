//! The receiving side.
pub mod laws;
pub mod media;
pub mod signaller;
pub mod source;
