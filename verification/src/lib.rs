//! Session logic for a wireless peripheral that answers one command with a
//! stream of checksummed notification frames.
//!
//! The crate holds the decisions of such a session and leaves the radio to the
//! caller: the caller performs each [`session::Action`] on its Bluetooth stack
//! and hands the outcome back as a [`session::Event`].

pub mod characteristic;
pub mod checksum;
pub mod config;
pub mod device;
pub mod frame;
pub mod session;
