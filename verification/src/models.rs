//! Plain data records of the tracker.

pub mod crypto;
