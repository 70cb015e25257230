//! Decision logic of a pre-flight review hook: configuration merging,
//! project detection, tool selection, output clean-up and report framing.
//! All file-system, process and thread work lives with the caller; this
//! crate decides what to do with what the caller observed.

pub mod traverse;
pub mod config;
pub mod sanitize;
pub mod project;
pub mod tools;
pub mod report;
pub mod hook;
