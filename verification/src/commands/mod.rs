//! What the three commands decide: install, uninstall and info. Each walks
//! the connectors in order; the walking itself acts on the host and is left
//! to the caller, who reports each answer here and is told what to do next.

pub mod info;
pub mod install;
pub mod uninstall;
