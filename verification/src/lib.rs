//! Typed requests and responses for three endpoints of one provider: chat
//! completions, speech to text and text to speech.
//!
//! The library does no I/O. For each endpoint it says what to send
//! ([`chat::request`], [`stt::request`], [`tts::request`]), decides on what
//! sending gave ([`exchange::after_send`], [`stt::after_send`]) and concludes
//! from the body that was read ([`chat::response`], [`stt::get_response`],
//! [`tts::audio`]). The caller owns the network and the conversation.
//!
//! JSON text is read and written by `serde_json`, and the status of a response
//! is judged by `reqwest::StatusCode`; what is taken on trust from them is
//! named in [`json`], [`exchange`] and [`stt`]. How the library's types map to
//! JSON values and back is its own, and proved.

pub mod chat;
pub mod error;
pub mod exchange;
pub mod json;
pub mod stt;
pub mod tts;
