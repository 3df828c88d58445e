//! A client for the Internet Relay Chat protocol: it decodes the lines a
//! server sends, drives the registration of a nickname, and writes the
//! client's commands in their wire format.

pub mod cmd_parser;
pub mod connection;
pub mod error;
pub mod reader;
pub mod text;
pub mod writer;

pub use cmd_parser::{IrcEvent, IrcLine};
pub use connection::{Connection, IrcEventHandler, NickSource, Reaction};
pub use error::{ErrorKind, IrcError};
pub use reader::{LinesTolerant, MemReader, TolerantLineReader};
pub use string_tests::StringTests;
pub use writer::{CloseWrite, IrcWriter, MemWriter, Outbound, Writer};
