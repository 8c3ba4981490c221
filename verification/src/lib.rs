//! Clipboard and file synchronisation between trusted devices.
//!
//! The modules hold the rules of the client and of the HTTP relay: how payloads are routed,
//! framed, checked and applied. Sockets, clipboards, clocks and disks stay with the caller, who
//! hands in what they answered and performs what comes back.

pub mod text;
pub mod codec;
pub mod security;
pub mod protocol;
pub mod server;
pub mod config;
pub mod network;
pub mod cloudflare;
pub mod clipboard;
pub mod file_transfer;
pub mod sync;
pub mod laws;
