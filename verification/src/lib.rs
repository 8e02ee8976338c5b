//! Verified client library for a livestreaming platform's public APIs.
//!
//! Use the `constellation` module for the real-time pub/sub endpoint, the
//! `chat` module for the chat protocol, the `rest` module for the REST API,
//! and the `oauth` module for authenticating users.
//!
//! The library owns everything that can be decided without touching the
//! network: how outbound frames, request bodies and URLs are built, how
//! inbound frames and response bodies are read, when a send is allowed, and
//! how method ids are issued. The sockets and HTTP exchanges themselves run
//! outside it, against the contracts stated here.

pub mod chat;
pub mod constellation;
pub mod internal;
pub mod json;
pub mod oauth;
pub mod rest;
pub mod text;

pub use chat::ChatClient;
pub use constellation::ConstellationClient;
pub use rest::REST;
