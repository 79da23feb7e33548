//! A dynamic-DNS client core: change detection over the host's public IPv4
//! address and the decisions that keep a provider's address records current.
//!
//! The network, the disk and the timers are driven from outside; every decision
//! taken about what they report is made and proved here.

use vstd::prelude::*;

pub mod addr;
pub mod cache;
pub mod config;
pub mod sync;
pub mod watch;

verus! {

/// The token that a failing component sends to ask for the whole process to stop.
pub struct ShutdownMsg;

} // verus!
