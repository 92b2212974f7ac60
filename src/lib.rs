//! Decisions of a TCP tunnel relay: an accept loop that binds once and
//! accepts forever, and the life of each accepted connection from socket
//! tuning through tunnel establishment and a two-way relay to release.
//!
//! The I/O itself is done by a driver, which feeds each machine what it
//! observed and performs the action it gets back.
pub mod accept;
pub mod config;
pub mod relay;
pub mod tunnel;
