//! A small client library for posting formatted messages to a chat-platform
//! incoming webhook.
//!
//! The library models a message as a fallback `text` string plus an optional
//! sequence of layout blocks (headers, markdown sections, dividers), renders
//! that model to its JSON wire form, and classifies the outcome of the HTTP
//! round trip.  The data model, the wire encoding and the sending decisions
//! are verified; the HTTP transport itself lives outside the library and
//! hands back plain status and body values.

pub mod client;
pub mod types;
pub mod wire;
