//! A privilege-bracketing execution wrapper: it checks its fixed configuration,
//! records who called it, optionally checks the target executable's SHA-512
//! digest, drops to a fixed target identity for good, authorizes the caller
//! against allow-lists, and hands back the argument vector to execute.
pub mod error;
pub mod config;
pub mod digest;
pub mod identity;
pub mod authorize;
pub mod process;
pub mod privilege;
pub mod run;
pub mod laws;
