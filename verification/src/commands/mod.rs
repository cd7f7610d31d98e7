//! Command implementations: the computing part of every marshal and
//! workspace command.
pub mod config;
pub mod help;
pub mod passthrough;
pub mod what_now;
pub mod ws;
