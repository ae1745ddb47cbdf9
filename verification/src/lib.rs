//! A media-session bridge library: a canonical playback-status model with
//! tolerance-based change detection, a line-delimited JSON request/response
//! protocol, per-platform session mapping and command planning, and album-art
//! rendering. Native session APIs and process I/O live outside the library;
//! it exchanges plain values with them.
//!
//! Time is carried as whole milliseconds throughout, so the 0.1-second
//! emission tolerance is the exact integer bound of 100 ms.

pub mod art;
pub mod codec;
pub mod fetcher;
pub mod parse;
pub mod protocol;
pub mod runtime;
pub mod search;
pub mod status;

pub use fetcher::MediaFetcher;
pub use protocol::Request;
pub use protocol::Response;
pub use status::PlaybackStatus;
pub use status::RepeatMode;
