//! A small verified core for a threaded static-file web server.
//!
//! The library holds the pure heart of the server: parsing a request line,
//! looking a route up in a registration-ordered table, deciding how handler
//! failures and missing files escalate to fallback routes, encoding the
//! wire-level reply, and the bookkeeping of a fixed-size worker pool.
//! The surrounding process owns the sockets, the threads and the file
//! system; it feeds this library plain bytes and carries its decisions out.

pub mod concurrency;
pub mod request;
pub mod response;
pub mod webserver;
