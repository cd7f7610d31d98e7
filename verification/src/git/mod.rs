//! Git repository state as marshal reads it.
pub mod porcelain;
pub mod status;
