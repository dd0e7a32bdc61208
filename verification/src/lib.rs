//! Command dispatch core for a Python project-management tool.
//!
//! The library turns an already-parsed subcommand and its flags into a
//! fully-populated operation request: it normalizes dependency and version
//! specifiers, composes one configuration record per invocation, and plans
//! the idempotent install/uninstall of shell completion hooks. Argument
//! parsing, filesystem access and the operations layer itself stay outside.

pub mod cli;
pub mod config;
pub mod error;
pub mod shell;
pub mod specifier;

pub use error::CliError;
pub use specifier::Dependency;
pub use specifier::PythonVersion;
