//! Configuration resolution for the nebulosus process: command-line verbosity
//! and an on-disk TOML file are merged into one typed `Config`.

pub mod config;
pub mod document;
pub mod error;
pub mod laws;
pub mod level;
pub mod tree;
pub mod vault;
