//! Sans-I/O client logic for the WUT academic-affairs portal: the login
//! handshake and the schedule fetch as a verified state machine, together with
//! the credential digests, the login form and the page scraping they rely on.

pub mod client;
pub mod digest;
pub mod form;
pub mod headers;
pub mod hex;
pub mod identifier;
pub mod request;
pub mod scrape;

pub use client::{Client, Reply};
pub use request::{Method, Request};
pub use scrape::{Cause, ExtractionError, Target};
