//! Peer discovery, registry and message propagation for a serverless
//! local-network chat node.
//!
//! The crate holds the decisions of the node: which peers are admitted, how
//! the registry changes, what is sent to whom and what is shown. Sockets,
//! timers and the terminal belong to the program that drives it.

pub mod address;
pub mod broadcast;
pub mod cli;
pub mod discovery;
pub mod display;
pub mod error;
pub mod gui;
pub mod lifecycle;
pub mod mdns;
pub mod network;
pub mod peer;
pub mod registry;
pub mod text;
pub mod walkie_talkie;
