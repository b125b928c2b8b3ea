//! Helpers around the `gpg` command line.
pub mod config;
pub mod gpg_cli;
