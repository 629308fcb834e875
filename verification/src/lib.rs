//! Disposable working copies of git repositories: the registry of
//! repositories and aliases, the metadata kept for each of them, and the
//! decisions of their lifecycle, stated and proved on plain values.

pub mod agent;
pub mod aliases;
pub mod clock;
pub mod config;
pub mod error;
pub mod fleet;
pub mod metadata;
pub mod operations;
pub mod sorting;
pub mod text;
pub mod vault;
pub mod version;
