//! Marshal: a Git workspace manager. This library holds its verified
//! logic — configuration layering, argument parsing, advice rules,
//! help topics and the workspace planning and rendering decisions.
pub mod text;
pub mod cli;
pub mod config;
pub mod context;
pub mod commands;
pub mod git;
pub mod workspace;
