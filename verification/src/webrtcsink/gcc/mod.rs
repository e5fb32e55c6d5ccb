//! Google Congestion Control for real-time communication, the sender's side.
//!
//! Times and durations are counted in nanoseconds. What takes real numbers (the
//! Kalman filter, moving averages, the products of rates and factors) is computed
//! by the caller, whose results the functions here take as arguments.
pub mod controller;
pub mod detector;
pub mod grouping;
pub mod laws;
pub mod pacer;
pub mod packet;
pub mod rate_laws;
pub mod window;
