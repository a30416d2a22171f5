//! Command-line logic of the hipfire-arwaky launcher and of its build tool:
//! paths under the home directory, the configuration and its keys, the
//! choice of what a command line asks for, and the planning of crate patching.

pub mod cli;
pub mod config;
pub mod patch_run;
pub mod paths;
pub mod text;
pub mod xtask;
