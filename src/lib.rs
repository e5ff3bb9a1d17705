//! Incremental Server-Sent-Events decoding for streamed model responses.
//!
//! The library turns a chunked byte stream into frames, reconciles each frame's
//! `event:` name with the JSON payload's own `type` tag, and drives the whole
//! process through a pull-based state machine whose terminal state is absorbing.

pub mod text;
pub mod frame;
pub mod decoder;
pub mod stream;
pub mod laws;
pub mod models;
pub mod urls;
