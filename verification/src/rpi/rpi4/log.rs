//! Logging: the system console.

pub mod console;
