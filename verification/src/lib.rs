//! A verified core for a self-updating launcher.
//!
//! The library models the whole update pipeline as a state machine: resolve
//! the host platform's archive name, resolve the version to install, download
//! the release archive, unpack it, and launch the installed executable.  All
//! decisions live here with contracts; a thin unverified shell performs the
//! network and file-system actions the machine asks for and feeds the
//! outcomes back in as events.

pub mod archive;
pub mod errors;
pub mod numbers;
pub mod paths;
pub mod pipeline;
pub mod platform;
pub mod urls;
