//! A safety-oriented management layer for a native WebAssembly engine.
//!
//! The engine itself (parsing, validation, instruction execution) is an
//! opaque external component reached through handles; this crate is the
//! layer that makes using those handles safe and predictable: the error
//! taxonomy, the value codec, the configuration bag, the registry of
//! instantiated exports, the import builder with its consuming transfers,
//! and the virtual-machine facade with its explicit phase state machine.

pub mod error;
pub mod types;
pub mod value;
pub mod configure;
pub mod instance;
pub mod ast;
pub mod host;
pub mod store;
pub mod import_object;
pub mod interpreter;
pub mod utils;
pub mod vm;
pub mod statistics;

pub use error::WasmEdgeError;
pub use error::WasmEdgeResult;
