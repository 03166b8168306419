use vstd::prelude::*;

verus! {

/// A freshly accepted connection paired with its address metadata.
pub struct Accepted<C> {
    pub conn: C,
    pub local_addr: String,
    pub remote_addr: String,
}

impl<C> Accepted<C> {
    /// Transforms the contained connection while keeping the address metadata
    /// word for word; used to tag a raw connection with its source variant.
    pub fn map_conn<D, F: FnOnce(C) -> D>(self, f: F) -> (r: Accepted<D>)
        requires
            call_requires(f, (self.conn,)),
        ensures
            call_ensures(f, (self.conn,), r.conn),
            r.local_addr == self.local_addr,
            r.remote_addr == self.remote_addr,
    {
        let Accepted { conn, local_addr, remote_addr } = self;
        Accepted { conn: f(conn), local_addr, remote_addr }
    }
}

} // verus!
