//! Event dispatch and live reconfiguration for a global-shortcut daemon.
//!
//! The library holds the decisions of the daemon: which action a shortcut
//! event resolves to, which shortcuts are asked of the desktop service, how a
//! configuration reload is staged and committed, and which command line an
//! action runs. Talking to the desktop service, reading files and spawning
//! processes is left to the program around it.
pub mod args;
pub mod config;
pub mod errors;
pub mod dispatch;
pub mod executor;
pub mod registration;
pub mod reload;
