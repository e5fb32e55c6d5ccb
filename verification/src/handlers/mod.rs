//! The signalling handler: takes what peers ask for, and queues what they are
//! to be told.
pub mod effects;
pub mod error;
pub mod handler;
pub mod laws;
pub mod model;
pub mod wellformed;
