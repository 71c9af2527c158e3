//! Decoder for Apple's `SLF0` serialized log format, the payload found inside
//! `.xcactivitylog` files once they are gunzipped.
//!
//! The crate works in two stages:
//! 1. a byte-level tokenizer ([`parser::Parser`]) that turns the raw stream
//!    into typed [`token::Token`] values, and
//! 2. a schema-directed reconstructor ([`deser::Deserializer`]) that rebuilds
//!    the activity-log object graph ([`log_class`]) from those tokens.
//!
//! Floating-point slots (timestamps) are carried as their IEEE-754 binary64
//! bit patterns (`u64`); callers that want an `f64` apply `f64::from_bits`.

pub mod cli;
pub mod deser;
pub mod json;
pub mod laws;
pub mod log_class;
pub mod parser;
pub mod schema;
pub mod stream;
pub mod text;
pub mod token;
