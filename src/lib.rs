//! A small persistent key-value store and the command language of a shell
//! that drives it.
pub mod store;
pub mod laws;
pub mod command;
pub mod shell;
