use vstd::prelude::*;

use crate::accepted::Accepted;
use crate::error::IoError;
use crate::holding::Holding;
use crate::http::{HttpConnection, HttpVersion};
use crate::listener::{Acceptor, Listener};

verus! {

/// An I/O stream produced by a joined listener: exactly one of the two source
/// connection types, chosen at construction and immutable thereafter.
pub enum JoinedStream<A, B> {
    A(A),
    B(B),
}

impl<A, B> JoinedStream<A, B> {
    /// True exactly when this stream came from the first source.
    pub fn is_a(&self) -> (r: bool)
        ensures
            r == (self is A),
    {
        match self {
            JoinedStream::A(_) => true,
            JoinedStream::B(_) => false,
        }
    }

    /// True exactly when this stream came from the second source.
    pub fn is_b(&self) -> (r: bool)
        ensures
            r == (self is B),
    {
        match self {
            JoinedStream::A(_) => false,
            JoinedStream::B(_) => true,
        }
    }
}

impl<H, C, A: HttpConnection<H, C>, B: HttpConnection<H, C>> HttpConnection<H, C> for JoinedStream<
    A,
    B,
> {
    open spec fn version_spec(&self) -> Option<HttpVersion> {
        match self {
            JoinedStream::A(a) => a.version_spec(),
            JoinedStream::B(b) => b.version_spec(),
        }
    }

    fn version(&self) -> (v: Option<HttpVersion>) {
        match self {
            JoinedStream::A(a) => a.version(),
            JoinedStream::B(b) => b.version(),
        }
    }

    /// The outcome is exactly what the active variant's own serve guarantees
    /// for this handler and configuration: the call is a transparent
    /// pass-through, both arguments handed on untouched.
    open spec fn serve_ens(self, handler: H, config: C, r: Result<(), IoError>) -> bool {
        match self {
            JoinedStream::A(a) => a.serve_ens(handler, config, r),
            JoinedStream::B(b) => b.serve_ens(handler, config, r),
        }
    }

    fn serve(self, handler: H, config: C) -> (r: Result<(), IoError>) {
        match self {
            JoinedStream::A(a) => a.serve(handler, config),
            JoinedStream::B(b) => b.serve(handler, config),
        }
    }
}

/// Concatenates two holding lists, every entry of the first before every entry
/// of the second, both orders preserved.
pub fn concat_holdings(a: &Vec<Holding>, b: &Vec<Holding>) -> (r: Vec<Holding>)
    ensures
        r@ == a@ + b@,
{
    let mut r: Vec<Holding> = Vec::new();
    let mut i: usize = 0;
    while i < a.len()
        invariant
            i <= a.len(),
            r@ == a@.subrange(0, i as int),
        decreases a.len() - i,
    {
        r.push(a[i].clone());
        proof {
            assert(r@ =~= a@.subrange(0, (i + 1) as int));
        }
        i = i + 1;
    }
    let mut j: usize = 0;
    while j < b.len()
        invariant
            j <= b.len(),
            r@ == a@ + b@.subrange(0, j as int),
        decreases b.len() - j,
    {
        r.push(b[j].clone());
        proof {
            assert(r@ =~= a@ + b@.subrange(0, (j + 1) as int));
        }
        j = j + 1;
    }
    proof {
        assert(r@ =~= a@ + b@);
    }
    r
}

/// Composes two listeners; binding both produces a [`JoinedAcceptor`].
/// Consumed exactly once by binding.
pub struct JoinedListener<A, B> {
    pub a: A,
    pub b: B,
}

impl<A, B> JoinedListener<A, B> {
    /// Creates a new `JoinedListener` from the two sources, `a` first.
    pub fn new(a: A, b: B) -> (r: Self)
        ensures
            r.a == a,
            r.b == b,
    {
        JoinedListener { a, b }
    }
}

impl<A: Listener, B: Listener> Listener for JoinedListener<A, B> {
    type Acceptor = JoinedAcceptor<A::Acceptor, B::Acceptor>;

    /// On success both sources are bound, the joined holdings are A's followed
    /// by B's, and each sub-acceptor is a successful bind outcome of its own
    /// listener. On failure the error is A's — or B's only when A could bind,
    /// since A is bound first and A's failure propagates before B is evaluated.
    open spec fn bind_ens(self, r: Result<JoinedAcceptor<A::Acceptor, B::Acceptor>, IoError>) -> bool {
        match r {
            Ok(j) => j.wf() && self.a.bind_ens(Ok(j.a)) && self.b.bind_ens(Ok(j.b)),
            Err(e) => self.a.bind_ens(Err(e)) || ((exists|aa: A::Acceptor|
                self.a.bind_ens(Ok(aa))) && self.b.bind_ens(Err(e))),
        }
    }

    /// Binds A first, then B; either failure propagates immediately and no
    /// acceptor is exposed. On success the holdings are concatenated, A's
    /// before B's, fixed for the acceptor's lifetime.
    fn try_bind(self) -> (r: Result<Self::Acceptor, IoError>) {
        let JoinedListener { a, b } = self;
        let a_acc = match a.try_bind() {
            Ok(acc) => acc,
            Err(e) => {
                return Err(e);
            },
        };
        let b_acc = match b.try_bind() {
            Ok(acc) => acc,
            Err(e) => {
                return Err(e);
            },
        };
        Ok(JoinedAcceptor::new(a_acc, b_acc))
    }
}

/// Which source's accept attempt completed first within one raced call, and
/// with what result. The losing attempt is abandoned without side effects and
/// both sources are raced again from scratch on the next call.
pub enum RaceOutcome<CA, CB> {
    A(Result<Accepted<CA>, IoError>),
    B(Result<Accepted<CB>, IoError>),
}

/// What one raced accept call settles to, as a function of which source won
/// and with what: the winner's connection tagged with its origin, metadata
/// kept word for word, or the winner's error, forwarded unchanged.
pub open spec fn raced_result<CA, CB>(outcome: RaceOutcome<CA, CB>) -> Result<
    Accepted<JoinedStream<CA, CB>>,
    IoError,
> {
    match outcome {
        RaceOutcome::A(res) => match res {
            Ok(acc) => Ok(
                Accepted {
                    conn: JoinedStream::A(acc.conn),
                    local_addr: acc.local_addr,
                    remote_addr: acc.remote_addr,
                },
            ),
            Err(e) => Err(e),
        },
        RaceOutcome::B(res) => match res {
            Ok(acc) => Ok(
                Accepted {
                    conn: JoinedStream::B(acc.conn),
                    local_addr: acc.local_addr,
                    remote_addr: acc.remote_addr,
                },
            ),
            Err(e) => Err(e),
        },
    }
}

/// Composes two bound acceptors together with the merged endpoint metadata,
/// A's holdings before B's, computed once at bind time and never recomputed.
pub struct JoinedAcceptor<A, B> {
    pub a: A,
    pub b: B,
    pub holdings: Vec<Holding>,
}

impl<A: Acceptor, B: Acceptor> JoinedAcceptor<A, B> {
    /// Well-formed: the merged holdings are exactly A's followed by B's.
    pub open spec fn wf(self) -> bool {
        self.holdings@ == self.a.holdings_spec() + self.b.holdings_spec()
    }

    /// Joins two bound acceptors, concatenating their holdings, `a`'s first.
    pub fn new(a: A, b: B) -> (r: Self)
        ensures
            r.a == a,
            r.b == b,
            r.wf(),
    {
        let holdings = concat_holdings(a.holdings(), b.holdings());
        JoinedAcceptor { a, b, holdings }
    }

    /// Settles one raced accept call from the outcome of the race: the winning
    /// source's connection is returned tagged with that source's variant and
    /// with its metadata untouched; the winning source's error is the call's
    /// error. The losing attempt is never observed.
    pub fn accept_raced(&self, outcome: RaceOutcome<A::Conn, B::Conn>) -> (r: Result<
        Accepted<JoinedStream<A::Conn, B::Conn>>,
        IoError,
    >)
        ensures
            r == raced_result(outcome),
    {
        match outcome {
            RaceOutcome::A(res) => match res {
                Ok(acc) => Ok(
                    acc.map_conn(
                        (|c| -> (s: JoinedStream<A::Conn, B::Conn>)
                            ensures
                                s is A && s->A_0 == c,
                            { JoinedStream::A(c) }),
                    ),
                ),
                Err(e) => Err(e),
            },
            RaceOutcome::B(res) => match res {
                Ok(acc) => Ok(
                    acc.map_conn(
                        (|c| -> (s: JoinedStream<A::Conn, B::Conn>)
                            ensures
                                s is B && s->B_0 == c,
                            { JoinedStream::B(c) }),
                    ),
                ),
                Err(e) => Err(e),
            },
        }
    }
}

impl<A: Acceptor, B: Acceptor> Acceptor for JoinedAcceptor<A, B> {
    type Conn = JoinedStream<A::Conn, B::Conn>;

    open spec fn holdings_spec(&self) -> Seq<Holding> {
        self.holdings@
    }

    fn holdings(&self) -> (v: &Vec<Holding>) {
        &self.holdings
    }
}

/// Law: a raced call won by source A yields A's connection tagged variant A,
/// and one won by source B yields B's connection tagged variant B, each with
/// its metadata kept word for word — a connection is never re-tagged or
/// handed to the other source's variant.
pub proof fn lemma_tag_follows_source<CA, CB>(ra: Accepted<CA>, rb: Accepted<CB>)
    ensures
        raced_result::<CA, CB>(RaceOutcome::A(Ok(ra))) == Ok::<
            Accepted<JoinedStream<CA, CB>>,
            IoError,
        >(
            Accepted {
                conn: JoinedStream::<CA, CB>::A(ra.conn),
                local_addr: ra.local_addr,
                remote_addr: ra.remote_addr,
            },
        ),
        raced_result::<CA, CB>(RaceOutcome::B(Ok(rb))) == Ok::<
            Accepted<JoinedStream<CA, CB>>,
            IoError,
        >(
            Accepted {
                conn: JoinedStream::<CA, CB>::B(rb.conn),
                local_addr: rb.local_addr,
                remote_addr: rb.remote_addr,
            },
        ),
{
}

/// Law: when connections are pending on both sources and two sequential raced
/// calls are each won by a different source — in whichever order — both calls
/// succeed and together they return both connections, each tagged with its
/// origin: neither source is starved within the round.
pub proof fn lemma_both_sources_served<CA, CB>(
    first: RaceOutcome<CA, CB>,
    second: RaceOutcome<CA, CB>,
    ca: Accepted<CA>,
    cb: Accepted<CB>,
)
    requires
        (first == RaceOutcome::<CA, CB>::A(Ok(ca)) && second == RaceOutcome::<CA, CB>::B(Ok(cb)))
            || (first == RaceOutcome::<CA, CB>::B(Ok(cb)) && second == RaceOutcome::<CA, CB>::A(
            Ok(ca),
        )),
    ensures
        raced_result(first) is Ok,
        raced_result(second) is Ok,
        (raced_result(first)->Ok_0.conn == JoinedStream::<CA, CB>::A(ca.conn) && raced_result(
            second,
        )->Ok_0.conn == JoinedStream::<CA, CB>::B(cb.conn)) || (raced_result(first)->Ok_0.conn
            == JoinedStream::<CA, CB>::B(cb.conn) && raced_result(second)->Ok_0.conn
            == JoinedStream::<CA, CB>::A(ca.conn)),
{
}

} // verus!

