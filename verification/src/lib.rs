//! A small interactive-shell library: a parser that turns an input line into
//! one of a fixed set of commands, and handlers that decide what each command
//! does.  Everything that touches the operating system (reading directories,
//! filesystem statistics, spawning processes, terminal colors) is driven from
//! outside: the handlers here take the outcome of those calls as plain values
//! and are verified for every possible outcome.

pub mod models;
pub mod strutil;
pub mod parser;
pub mod color;
pub mod handlers;
pub mod dispatch;

pub use models::Command;
pub use models::CommandError;
pub use parser::parse_command;
