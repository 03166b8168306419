use vstd::prelude::*;

use crate::error::IoError;
use crate::holding::Holding;

verus! {

/// A live bound resource that yields incoming connections and exposes the
/// endpoint metadata fixed at bind time.
pub trait Acceptor: Sized {
    /// The connection type this acceptor yields.
    type Conn;

    /// The endpoint metadata this acceptor was bound with.
    spec fn holdings_spec(&self) -> Seq<Holding>;

    /// Returns the bound endpoints' metadata, fixed at bind time.
    fn holdings(&self) -> (v: &Vec<Holding>)
        ensures
            v@ == self.holdings_spec(),
    ;
}

/// A bindable configuration value, consumed exactly once to produce an
/// [`Acceptor`] or a transport-layer I/O error.
pub trait Listener: Sized {
    /// The acceptor this listener produces on a successful bind.
    type Acceptor: Acceptor;

    /// What this listener guarantees of each possible bind outcome.
    spec fn bind_ens(self, r: Result<Self::Acceptor, IoError>) -> bool;

    /// Binds, producing an acceptor or surfacing the I/O error; never aborts.
    fn try_bind(self) -> (r: Result<Self::Acceptor, IoError>)
        ensures
            self.bind_ens(r),
    ;
}

} // verus!
