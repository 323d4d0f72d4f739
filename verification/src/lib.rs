//! A small bridge between two message buses: it watches a privileged
//! system-wide bus for a vendor notification signal and re-emits each
//! observed signal as a standard desktop notification call on a target
//! user's session bus.
//!
//! The crate holds the bridge's logic: decoding a signal's argument list
//! into a notification payload, building the fixed-shape outbound call,
//! the effective-identity switch used while the session connection is
//! opened, and the derivation of the session-bus address and the monitor
//! match rule. The surrounding binary owns the bus connections and the
//! receive loop and hands plain values in and out.

pub mod address;
pub mod dispatch;
pub mod identity;
pub mod notify;
pub mod rule;
pub mod translate;
