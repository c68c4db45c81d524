//! A verified client core for a locally hosted model server.
//!
//! The library builds the exact request URLs and JSON bodies that the
//! server's HTTP API expects, and maps every transport or HTTP outcome to
//! the uniform text-or-error result that callers consume. The HTTP and
//! process calls themselves live outside the library; everything that
//! decides or computes is here, with a contract.

pub mod client;
pub mod digits;
pub mod generate;
pub mod install;
pub mod jsontext;
pub mod outcome;
mod strbuild;
pub mod urlenc;
