//! Relays events of a native chat connection to a listener object that lives
//! in a foreign runtime.
//!
//! The crate holds the decisions of the relay and makes none of the foreign
//! calls. A [`listener::JniChatListener`] turns each native event into a
//! [`delivery::Delivery`]: a small machine that names the next piece of
//! foreign work, takes the reply to it, and ends in a
//! [`delivery::Outcome`]. Whoever owns the foreign runtime performs the
//! work, logs what a delivery swallowed, and stops where it ended fatally.
//!
//! - [`foreign`]: plain values for what lives in the foreign runtime.
//! - [`error`]: the failures that are told apart.
//! - [`delivery`]: one delivery, step by step, and what holds of every run.
//! - [`listener`]: the adapter, and what holds of each kind of event.
//! - [`lifetime`]: the strong references that adapters hold.
//! - [`concurrent`]: deliveries side by side.

pub mod concurrent;
pub mod delivery;
pub mod error;
pub mod foreign;
pub mod lifetime;
pub mod listener;
