//! The request-to-response core of a small static file server, free of I/O.
//!
//! A request, together with what a driver found on disk for it, is mapped to the one
//! response it gets: a file to stream, a redirect to a directory, or an error page.
//! `handler` holds the decisions, `exchange` offers them step by step to a driver that
//! does the I/O, and `guarantees` proves what holds of them for every request.

pub mod error;
pub mod exchange;
pub mod guarantees;
pub mod handler;
pub mod mime;
pub mod page;
pub mod path;
pub mod request;
pub mod response;
pub mod stream;
pub mod text;
pub mod utils;

pub use crate::error::Error;
pub use crate::request::Config;
