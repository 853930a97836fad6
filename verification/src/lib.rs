//! Decisions of a small supervisor that runs one command and is controlled over HTTP.
//!
//! The crate holds everything that is decided: what the command line means, how each
//! request is answered, what is written to the log, when a restart goes ahead, and what the
//! watcher of the running command does next. Processes, sockets, timers and terminals belong
//! to the program around it, which hands over what it observed and carries out what it is told.

pub mod accept_laws;
pub mod boot;
pub mod clap_items;
pub mod cli;
pub mod cli_laws;
pub mod effects;
pub mod laws;
pub mod monitor;
pub mod output;
pub mod restart;
pub mod routes;
pub mod start;
pub mod state;
pub mod stop;
pub mod text;
pub mod views;
