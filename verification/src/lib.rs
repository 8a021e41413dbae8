//! Supervision of a local backend service and forwarding of commands to it.
//!
//! The crate holds the decisions of a desktop shell that runs one backend
//! process and talks to it over HTTP: where the backend lives, how it is
//! launched, what happens to its process handle, which request stands for
//! which command, and what a response means. Everything here is a function
//! of plain values; spawning, probing the file system and the network
//! exchange itself are left to the caller.

pub mod forwarder;
pub mod json;
pub mod launch;
pub mod lifecycle;
pub mod paths;
pub mod platform;
pub mod resolver;
pub mod supervisor;
pub mod text;
