//! WebRTC signalling and congestion control, with verified contracts.
pub mod handlers;
pub mod json;
pub mod numbers;
pub mod peers;
pub mod protocol;
pub mod signalling;
pub mod text;
pub mod urls;
pub mod webrtcsink;
pub mod webrtcsrc;
