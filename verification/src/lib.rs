//! A minimal HTTP/1.1 request-framing and dispatch core.
//!
//! One connection serves one exchange: a bounded read gives a [`frame::RawFrame`],
//! the parser turns it into a [`request::Request`], the router answers with a
//! [`response::Response`], and the writer lays that out as wire bytes. The
//! socket work itself is left to the caller, who drives a
//! [`connection::Connection`] with the outcome of each read and write.

pub mod connection;
pub mod exchange;
pub mod frame;
pub mod listener;
pub mod request;
pub mod response;
pub mod router;
pub mod text;
pub mod writer;
