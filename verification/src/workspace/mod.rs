//! The workspace model: the manifest of declared repositories, the
//! declared state of each child, the per-developer staging area and
//! the pre-flight checks that guard branch switches.
pub mod manifest;
pub mod names;
pub mod preflight;
pub mod scope;
pub mod staged;
pub mod state;
