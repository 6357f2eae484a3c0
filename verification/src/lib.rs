//! The decisions of a server that fetches links, transcodes what they point at and serves the
//! result.
//!
//! Nothing here performs I/O. Each request, and each job of the background queue, is a value that
//! names the next [`effect::Effect`] it needs and that is resumed with the [`effect::Reply`] to it.

pub mod command;
pub mod config;
pub mod digest;
pub mod direct;
pub mod effect;
pub mod error;
pub mod hexadecimal;
pub mod journeys;
pub mod link;
pub mod link_id;
pub mod path;
pub mod probe;
pub mod process;
pub mod process_laws;
pub mod requests;
pub mod store;
pub mod task_laws;
pub mod tasks;
