//! Mouse and keyboard sharing on Linux.
//!
//! The machine that is in control grabs its mice and keyboards, and either passes what they
//! tell on to virtual devices of its own or forwards it to a remote machine. The machine that
//! is being controlled writes what it is sent to virtual devices.
//!
//! This crate holds the decisions; reading and writing devices, and the network, are up to the
//! caller.

pub mod capture;
pub mod codes;
pub mod conversation;
pub mod devices;
pub mod events;
pub mod frame;
pub mod inject;
pub mod keymap;
pub mod launch;
pub mod layout;
pub mod status;
