//! Instance handles: function types, host function handles, and the
//! table, memory and global instances that a registry can own.

pub mod function;
pub mod global;
pub mod memory;
pub mod table;
