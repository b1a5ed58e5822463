//! The Redis source: the RESP2 wire format, the reading of INFO output and
//! the source's configuration.

pub mod command;
pub mod config;
pub mod generic;
pub mod generic_table;
pub mod connection;
pub mod encoding;
pub mod info;
pub mod sentinel;
pub mod slowlog;
pub mod source;
