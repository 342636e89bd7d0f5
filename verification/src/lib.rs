//! A typed client library for NNTP, the line-oriented Usenet transfer
//! protocol: response framing and classification, dot-stuffing, transparent
//! response decompression, and a session-state machine for the connect
//! handshake.

pub mod article;
pub mod bytes;
pub mod capabilities;
pub mod client;
pub mod command;
pub mod compression;
pub mod connection;
pub mod error;
pub mod framing;
pub mod group;
pub mod response;
pub mod text;

