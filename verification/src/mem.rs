use vstd::prelude::*;

use crate::error::{IoError, IoErrorKind};
use crate::holding::Holding;
use crate::http::{HttpConnection, HttpVersion};
use crate::listener::{Acceptor, Listener};

verus! {

/// An in-memory connection: carries the bytes its peer wrote and the
/// protocol version it negotiated. Lets compositions of the joined listener
/// be driven and examined without any I/O.
pub struct MemConn {
    /// The bytes the peer wrote on this connection.
    pub payload: Vec<u8>,
    /// The protocol version this connection negotiated, if any.
    pub negotiated: Option<HttpVersion>,
    /// The handler key this connection expects to be served with.
    pub expected_handler: u64,
    /// The protocol configuration key this connection expects.
    pub expected_config: u64,
}

impl HttpConnection<u64, u64> for MemConn {
    open spec fn version_spec(&self) -> Option<HttpVersion> {
        self.negotiated
    }

    fn version(&self) -> (v: Option<HttpVersion>) {
        self.negotiated
    }

    /// Serving succeeds exactly when the handler and configuration arrive
    /// untouched.
    open spec fn serve_ens(self, handler: u64, config: u64, r: Result<(), IoError>) -> bool {
        (r is Ok) <==> (handler == self.expected_handler && config == self.expected_config)
    }

    fn serve(self, handler: u64, config: u64) -> (r: Result<(), IoError>) {
        if handler == self.expected_handler && config == self.expected_config {
            Ok(())
        } else {
            Err(IoError { kind: IoErrorKind::Other, message: String::new() })
        }
    }
}

/// An in-memory bound endpoint with fixed holdings, yielding [`MemConn`]
/// connections.
pub struct MemAcceptor {
    /// The endpoint metadata this acceptor was bound with.
    pub holdings: Vec<Holding>,
}

impl Acceptor for MemAcceptor {
    type Conn = MemConn;

    open spec fn holdings_spec(&self) -> Seq<Holding> {
        self.holdings@
    }

    fn holdings(&self) -> (v: &Vec<Holding>) {
        &self.holdings
    }
}

/// An in-memory listener with a scripted bind outcome: binding yields
/// exactly the stored acceptor or the stored error.
pub struct MemListener {
    /// What binding this listener resolves to.
    pub outcome: Result<MemAcceptor, IoError>,
}

impl Listener for MemListener {
    type Acceptor = MemAcceptor;

    /// Binding yields exactly the scripted outcome.
    open spec fn bind_ens(self, r: Result<MemAcceptor, IoError>) -> bool {
        r == self.outcome
    }

    fn try_bind(self) -> (r: Result<MemAcceptor, IoError>) {
        self.outcome
    }
}

} // verus!
