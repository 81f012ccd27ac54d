//! A minimal HTTP/1.1 server core: request framing and parsing, exact-match
//! routing, cookie sessions, lock-guarded shared state and response
//! serialisation.
//!
//! The library holds the decisions of the server and proves them against
//! contracts over plain mathematical models. It opens no socket and spawns
//! no task: the program that embeds it reads and writes the streams, and
//! asks the library what to do with what it read. The few calls into std
//! and into other crates whose results are taken on trust are private
//! functions, each documented where it stands.

pub mod decimal;
pub mod http;
pub mod modules;
pub mod server;
pub mod table;
pub mod text;
