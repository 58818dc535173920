//! Request routing and configuration logic of the Beep SFU signalling server.
//!
//! The library holds what the server decides: how configuration values and
//! token claims are read as numbers, which media worker a session is sent
//! to, and which HTTP reply each worker answer becomes.
use vstd::prelude::*;

pub mod numparse;
pub mod utf8check;
pub mod config;
pub mod token;
pub mod verify_jwt;
pub mod signaling;
pub mod worker;
pub mod offer;
