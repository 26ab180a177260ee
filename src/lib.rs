//! A terminal server core: the wire protocol that carries keystrokes, resizes and
//! terminal output on one connection, and the decisions of each session.
pub mod command;
pub mod decimal;
pub mod protocol;
pub mod session;
pub mod cli;
pub mod laws;
