//! A small key-value store: a command language, an in-memory mapping and
//! whole-file snapshots of it.
//!
//! A line is read as a [`Command`] by [`parse_command`], a command is
//! applied to a [`Store`] by [`Store::apply`], and [`save`] and [`load`]
//! turn a store into the bytes of a snapshot and back. Nothing here reads or
//! writes a file, and applying a command never saves.

pub mod command;
pub mod error;
pub mod processor;
pub mod snapshot;
pub mod store;
pub mod text;

pub use command::{parse, parse_command, Command};
pub use error::{IoFailure, IoKind, KvError, MyError, ParseError};
pub use processor::Reply;
pub use snapshot::{load, save, written};
pub use store::{get_owned, Store};
