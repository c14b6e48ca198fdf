//! A client for a speech synthesis service that streams audio over a
//! websocket.
//!
//! The library holds what the client decides and computes: how the stream is
//! to be reached and with what request ([`request`], [`net`]), how messages
//! are written ([`outbound`]) and read ([`headers`], [`msg`]), how a turn
//! runs on what the stream delivers ([`session`]), and how failures are told
//! apart ([`synthesizer::websocket`]). It opens no sockets itself: the
//! caller moves the frames, and the library says what they mean.

pub mod address;
pub mod base64;
pub mod constants;
pub mod errors;
pub mod headers;
pub mod msg;
pub mod net;
pub mod outbound;
pub mod request;
pub mod scan;
pub mod session;
pub mod ssml;
pub mod stamp;
pub mod synthesizer;
pub mod text;
pub mod types;
pub mod utf8;

pub use constants::{DEFAULT_ENDPOINT, ORIGIN};
pub use ssml::{interpolate_ssml, TextOptions};
pub use synthesizer::websocket::{
    Synthesizer, WebsocketSynthesizer, WebsocketSynthesizerError, WebsocketSynthesizerErrorKind,
};
pub use synthesizer::SynthesizerConfig;
pub use types::{AudioFormat, AuthOptions, Container, Role};
