//! Data types exchanged with the OpenCode server.

pub mod error;
pub mod event;
pub mod file;
pub mod message;
pub mod permission;
pub mod project;
pub mod question;
pub mod session;
pub mod tool;
