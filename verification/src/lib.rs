//! Recognition of command words.
//!
//! [`parser`] maps a word to one of six commands by exact, case-sensitive
//! comparison. [`request`] decides from the arguments that a process was
//! started with which command, if any, was asked for.

pub mod parser;
pub mod request;
