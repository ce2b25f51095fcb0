//! A self-installing command dispatcher for `cargo`.
//!
//! Installed over a toolchain's `cargo`, the program looks up the build target
//! that the project declares and forwards its arguments to the real `cargo`,
//! replacing `build` by `xbuild` when the target is not the host. Under any
//! other name it installs itself. This library holds the decisions; the
//! program around it reads files, starts processes and copies binaries.

pub mod config;
pub mod dispatch;
pub mod error;
pub mod identity;
pub mod install;
pub mod paths;
pub mod world;

pub use identity::main_helper;
