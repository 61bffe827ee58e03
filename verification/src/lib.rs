//! Terminal emulation core: an escape-sequence parser, a screen buffer of
//! styled cells, and the lifecycle of the sessions that feed them; with
//! the records of the connection store and the statements that change
//! them.

mod ambient;
pub mod db;
pub mod terminal;
