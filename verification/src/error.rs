use vstd::prelude::*;

verus! {

/// The kind of a transport-layer I/O failure.
#[derive(Clone, Copy, PartialEq, Eq, Structural, Debug)]
pub enum IoErrorKind {
    AddrInUse,
    PermissionDenied,
    ConnectionReset,
    ConnectionAborted,
    TimedOut,
    Other,
}

/// A transport-layer I/O error.
///
/// Bind failures are fatal by convention and surfaced once at startup; accept
/// failures are transient and scoped to the call that produced them.
#[derive(Debug)]
pub struct IoError {
    pub kind: IoErrorKind,
    pub message: String,
}

impl Clone for IoError {
    fn clone(&self) -> (res: Self)
        ensures
            res == *self,
    {
        IoError { kind: self.kind, message: self.message.clone() }
    }
}

} // verus!
