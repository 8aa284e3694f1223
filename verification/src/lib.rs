//! Connection and stream lifecycle rules of a QUIC transport runtime.
//!
//! A runtime of this kind lets callers that block drive a transport that
//! does not: a caller holds a handle, sends a request through it and waits
//! for the answer, while a task on the other side of the channel waits on
//! requests, on the transport and on deadlines.
//!
//! This library is what such a runtime decides. [`state`] and
//! [`stream_state`] hold what a connection and a stream can be, [`runtime`]
//! and [`stream`] say what a task does about each request and each report
//! of the transport, [`conn`] and [`api`] are the caller's side of the
//! channel, and [`laws`] states what holds of all of it. The waiting itself
//! is left to the program around the library.

pub mod api;
pub mod certs;
pub mod config;
pub mod conn;
pub mod error;
pub mod event;
pub mod laws;
pub mod material;
pub mod notify;
pub mod options;
pub mod runtime;
pub mod state;
pub mod stream;
pub mod stream_state;
pub mod types;
