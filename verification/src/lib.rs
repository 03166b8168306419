//! Joins two independently bound listeners into one logical listener.
//!
//! A [`joined::JoinedListener`] composes two bindable listener values; binding
//! both produces a [`joined::JoinedAcceptor`], whose raced accept calls yield
//! connections wrapped in a [`joined::JoinedStream`] tagged with the source
//! endpoint that produced them.

pub mod accepted;
pub mod error;
pub mod holding;
pub mod http;
pub mod joined;
pub mod listener;
pub mod mem;

pub use accepted::Accepted;
pub use error::{IoError, IoErrorKind};
pub use holding::{Holding, Transport, VersionSupport};
pub use http::{HttpConnection, HttpVersion};
pub use joined::{JoinedAcceptor, JoinedListener, JoinedStream, RaceOutcome};
pub use listener::{Acceptor, Listener};
pub use mem::{MemAcceptor, MemConn, MemListener};
