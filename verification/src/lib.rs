//! Client-side core of a streaming-service "now playing" display: credentials,
//! the authorization handshake, the access-token lifecycle and the polling of
//! the currently playing track.

pub mod cadence;
pub mod callback;
pub mod client;
pub mod credentials;
pub mod error;
pub mod form;
pub mod guarantees;
pub mod http;
pub mod json;
pub mod poll;
pub mod text;
pub mod track;
