//! The command bridge and lifecycle rules of a desktop application shell.
//!
//! The user interface runs in an embedded web view and reaches the host
//! process through named commands. This crate holds the rules of that
//! exchange: the reply of each command, the registry of command names, the
//! dispatch of one invocation to its reply, and the lifecycle that decides
//! when the process starts serving and when it ends.

pub mod bridge;
pub mod commands;
pub mod json;
pub mod lifecycle;
pub mod registry;
pub mod text;
