//! Client-side cursor pagination for a market-data HTTP API.
//!
//! The heart of the crate is [`paginate::StreamHandle`], a pull-driven
//! state machine that turns a chain of dependent HTTP requests (each
//! continuation cursor comes from the previous response's headers) into
//! a lazy sequence of pages, with exactly one outstanding request at a
//! time. [`decode::JsonStream`] decodes each page body into a JSON value.
//! [`endpoints`] builds the paths and query parameters of the one-shot
//! endpoints; the caller performs the HTTP requests themselves.

pub mod decode;
pub mod digits;
pub mod endpoints;
pub mod page;
pub mod paginate;
