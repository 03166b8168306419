use vstd::prelude::*;

verus! {

/// The transport a bound endpoint speaks.
#[derive(Clone, Copy, PartialEq, Eq, Structural, Debug)]
pub enum Transport {
    Tcp,
    Unix,
    Tls,
}

/// Which protocol versions a bound endpoint is willing to negotiate.
#[derive(Clone, Copy, PartialEq, Eq, Structural, Debug)]
pub struct VersionSupport {
    pub http1: bool,
    pub http2: bool,
    pub http3: bool,
}

/// Metadata describing one bound endpoint: transport kind, local address and
/// supported protocol versions. Immutable after bind; the joined listener only
/// concatenates holdings, it never inspects them.
#[derive(PartialEq, Eq, Debug)]
pub struct Holding {
    pub transport: Transport,
    pub local_addr: String,
    pub versions: VersionSupport,
}

impl Clone for Holding {
    fn clone(&self) -> (res: Self)
        ensures
            res == *self,
    {
        Holding {
            transport: self.transport,
            local_addr: self.local_addr.clone(),
            versions: self.versions,
        }
    }
}

} // verus!
