//! Helpers for building packet transports out of blocking capture APIs.

pub mod blocking_capture;
