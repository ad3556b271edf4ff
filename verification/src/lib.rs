//! Client for emitting metric data and metric meta data to a Bosun server.
//!
//! The library resolves which sends a configuration permits, encodes the two
//! payload kinds as JSON documents, prepares the HTTP requests that carry them
//! and classifies what the server answered. Carrying a prepared request over
//! the network is left to the caller.

pub mod client;
pub mod clock;
pub mod config;
pub mod datum;
pub mod error;
pub mod json;
pub mod metadata;
pub mod mode;
pub mod run;
pub mod tags;
pub mod text;

pub use client::{BosunClient, Credentials, Delivery, Request, UrlParts};
pub use clock::now_in_ms;
pub use config::{parse_args, parse_tags, BosunConfig, CliArgs, Config};
pub use datum::Datum;
pub use error::{EmitterError, EmitterResult};
pub use metadata::Metadata;
pub use mode::{mode, resolve_mode, Mode, ModeError, Presence};
pub use run::{emit_datum, emit_datum_at, emit_metadata, msg, resume, run, Action, InFlight, Transition};
pub use tags::Tags;
