//! A language detection service that speaks two protocols on one socket.
//!
//! A request is routed by the transport version it arrived on (`dispatch`):
//! HTTP/1.0 and HTTP/1.1 carry the text protocol (`legacy`), HTTP/2 the RPC
//! protocol (`structured`). Both handlers consult the same detector
//! (`detect`), and the bodies of their replies are streamed through one
//! shared body type (`body`). `config` reads the settings, and `client`,
//! `model` and `error` serve a client of the text protocol.
pub mod body;
pub mod client;
pub mod config;
pub mod detect;
pub mod dispatch;
pub mod error;
pub mod legacy;
pub mod model;
pub mod structured;
pub mod text;
