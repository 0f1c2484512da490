//! Following a growing resource over HTTP byte ranges, as `tail -f` follows
//! a file: the server is asked again and again how long the resource is,
//! and what has been appended since the last time is fetched and handed on.
//!
//! The library decides and reads; it sends nothing. What it holds:
//!
//! - [`tail`]: the tail loop, a machine that is told what happened and
//!   names what to do next;
//! - [`run`]: what holds of every run of that machine;
//! - [`options`]: where a tail begins;
//! - [`transport`]: what is made of the replies of a server;
//! - [`error`]: the failures of a transport operation;
//! - [`decimal`]: numbers as decimal text.

pub mod decimal;
pub mod error;
pub mod options;
pub mod run;
pub mod tail;
pub mod transport;
