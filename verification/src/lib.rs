//! Cross-platform package installation: which connector serves a package,
//! whether a version meets a constraint, and how a release archive is laid out.

pub mod commands;
pub mod error;
pub mod manifest;
pub mod package_manager;
pub mod platform;
pub mod text;
pub mod version;
