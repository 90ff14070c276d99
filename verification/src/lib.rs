//! An interactive shell for a hierarchical coordination service: the
//! command dispatcher, the connection life cycle and the rendering of
//! replies, as verified functions from values to values.

pub mod command;
pub mod help;
pub mod laws;
pub mod parse;
pub mod service;
pub mod shell;
pub mod text;
pub mod zk;
