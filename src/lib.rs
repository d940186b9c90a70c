//! Browser-shell support library: extension content-script matching and
//! injection, the persisted browser store, download file naming, content
//! blocking, DNS-over-HTTPS answers, the Tor daemon's decisions and the
//! `servo:` URL scheme.

pub mod text;
pub mod match_pattern;
pub mod manifest;
pub mod injection;
pub mod registry;
pub mod filename;
pub mod storage;
pub mod tor;
pub mod protocol;
pub mod doh;
pub mod content_blocking;
