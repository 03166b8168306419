use vstd::prelude::*;

use crate::error::IoError;

verus! {

/// A negotiated HTTP protocol version.
#[derive(Clone, Copy, PartialEq, Eq, Structural, Debug)]
pub enum HttpVersion {
    Http10,
    Http11,
    Http2,
    Http3,
}

/// The protocol-connection capability that a joined stream forwards to its
/// active variant. `H` is the request handler handed through untouched, `C`
/// the protocol configuration.
pub trait HttpConnection<H, C>: Sized {
    /// The protocol version this connection negotiates, if any.
    spec fn version_spec(&self) -> Option<HttpVersion>;

    /// Returns the negotiated protocol version of the connection.
    fn version(&self) -> (v: Option<HttpVersion>)
        ensures
            v == self.version_spec(),
    ;

    /// What this connection guarantees of each serve outcome, for the handler
    /// and protocol configuration it was actually given.
    spec fn serve_ens(self, handler: H, config: C, r: Result<(), IoError>) -> bool;

    /// Consumes the connection and drives its own request-serving loop,
    /// passing the handler and protocol configuration through untouched.
    fn serve(self, handler: H, config: C) -> (r: Result<(), IoError>)
        ensures
            self.serve_ens(handler, config, r),
    ;
}

} // verus!
