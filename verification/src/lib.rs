//! Decisions of a snapshot service for a blockchain node: when a snapshot is
//! due, which operations one attempt consists of and in which order, which old
//! snapshot makes room for a new one, and how the artifacts are named.
//!
//! The library computes; the host program performs the operations and reports
//! how each one ended.

pub mod attempt;
pub mod clock;
pub mod configuration;
pub mod executor;
pub mod failure;
pub mod helper;
pub mod lifecycle;
pub mod naming;
pub mod node;
pub mod paths;
pub mod retention;
pub mod scheduler;
pub mod staging;
pub mod steps;
pub mod text;
pub mod web;
