//! The module system and the package manager.

pub mod module_system;
pub mod package_manager;
pub mod module_loader;
pub mod builtins;
