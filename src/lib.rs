//! A capacity-bounded, authorization-gated membership registry.
//!
//! Members are kept in insertion order in a `BoundedVec` whose bound is the
//! deployment constant [`MAX_MEMBERS`]. Each successful mutation yields the
//! event that the host records; each failure leaves the list untouched.
use vstd::prelude::*;

pub mod bounded;

pub use bounded::{AccountId, BlockNumber, MaxMembers, MAX_MEMBERS};
pub mod registry;
pub use registry::{Error, Event, Pallet};
pub mod laws;
