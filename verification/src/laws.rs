//! What the calls promise, stated of the calls themselves: which results a call can have, in
//! terms of what it was given.
pub mod connection;
pub mod core_requests;
pub mod failures;
pub mod jobs;
pub mod lookup;
pub mod requests;
pub mod rtt;
