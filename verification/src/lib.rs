//! The decisions behind `cargo 3ds`, a cargo subcommand that builds executables for the
//! Nintendo 3DS and sends them to a device.
//!
//! A command line is a [`command::Cargo`] value. For each command the library says how the
//! real `cargo` is called ([`cargo_call`]), which message format is asked for
//! ([`message_format`]), which steps follow ([`callback`], [`project`]), and what `3dslink`
//! is told ([`link`]). It runs no program and touches no file: it takes the answers as
//! arguments and gives back what to do next.
//!
//! Contracts speak of the texts that strings hold ([`text`]). What relates several functions
//! is stated and proved in [`laws`].

pub mod args;
pub mod callback;
pub mod cargo_call;
pub mod command;
pub mod laws;
pub mod link;
pub mod message_format;
pub mod project;
pub mod runner;
pub mod text;
