//! A Zenoh-Flow operator that runs a Python script.
//!
//! The library holds what is decided and what is done on the interpreter:
//! what the node's configuration must hold, how values cross to the
//! interpreter's form and back, in which order the node is brought up, how
//! the script is run, registered, built and iterated, and what each failure
//! is reported as. Opening the runtime library, reading the script and
//! wrapping the host's context and channels is left to the caller.

pub mod config;
pub mod driver;
pub mod error;
pub mod interpreter;
pub mod lifecycle;
pub mod loader;
pub mod native;
pub mod node;
pub mod step;
pub mod text;
pub mod value;
