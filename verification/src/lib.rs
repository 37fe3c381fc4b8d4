//! Driver library for the inter-processor mailbox of a dual-core
//! microcontroller, together with the small peripheral helpers that
//! surround it at startup: power control for the second core, clock-tree
//! configuration, and real-time-clock setup.
//!
//! Hardware registers are represented by register-model types owned by the
//! driver handles, so the type system rules out aliased concurrent access
//! and the protocol logic can be verified against an explicit model of
//! what the peer core and the interrupt lines may do.

pub mod ipcc;
pub mod pwr;
pub mod rcc;
pub mod rtc;
