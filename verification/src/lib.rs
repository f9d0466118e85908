//! A bulk URL fetcher without the I/O.
//!
//! The fetcher reads URLs, one per line, requests all of them at once, and prints
//! each body that comes back or saves it under a name made of the host and of the
//! hash of the body. This crate holds every decision that the fetcher takes, as
//! verified functions; a driver performs the requests and writes the files that
//! these functions ask for.
//!
//! - [`config`]: what a run is told, and [`ignore`], the list of status codes in it.
//! - [`fetch`]: one unit of work, from its request to its outcome.
//! - [`dispatch`]: the run, which launches a unit for each line and counts the
//!   outcomes; [`tally`] holds its counts and the laws of counting.
//! - [`digest`], [`naming`], [`method`]: the content hash, the stored name, and the
//!   check of the HTTP method; each calls an outside crate for its result.
//! - [`decimal`]: numbers in base ten, read and written.
//! - [`outcome`]: how a unit can fail.

pub mod config;
pub mod decimal;
pub mod digest;
pub mod dispatch;
pub mod fetch;
pub mod ignore;
pub mod method;
pub mod naming;
pub mod outcome;
pub mod tally;
