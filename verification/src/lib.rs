//! Backend core of the Elevation Manager desktop client.
//!
//! The crate holds the decisions behind the client's background work: the
//! credential store every authenticated call reads, the gateway rules that
//! shape a request and classify a response, the notification polling engine
//! with its failure-driven backoff, and the controller that keeps at most one
//! polling task alive. Around that core stand the payloads of the backend API
//! and the rules of the commands that use them.
//!
//! Nothing here performs I/O: callers send what the gateway prepares, sleep
//! as the engine says, and hand every result back.

pub mod auth;
pub mod config;
pub mod dates;
pub mod gateway;
pub mod lifecycle;
pub mod notifications;
pub mod polling;
pub mod polling_laws;
pub mod production;
pub mod reviews;
pub mod settings;
pub mod teams;
pub mod text;
