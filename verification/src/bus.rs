//! Arbitration of the one physical bus among the endpoints of several devices.
//!
//! The arbiter grants the bus to one endpoint at a time. A grant is a
//! `ScopedLock`; bytes may be put on the bus only under the lock that the
//! arbiter currently admits, and the lock is handed back when the transaction
//! is over. An endpoint that finds the bus taken suspends and asks again.

use vstd::prelude::*;

verus! {

/// A device's handle on the shared bus.
#[derive(Debug, PartialEq, Eq)]
pub struct DeviceEndpoint {
    id: u8,
}

impl View for DeviceEndpoint {
    type V = u8;

    closed spec fn view(&self) -> u8 {
        self.id
    }
}

impl DeviceEndpoint {
    /// The endpoint with the given number.
    pub fn new(id: u8) -> (endpoint: Self)
        ensures
            endpoint@ == id,
    {
        DeviceEndpoint { id }
    }

    /// The endpoint's number.
    pub fn id(&self) -> (id: u8)
        ensures
            id == self@,
    {
        self.id
    }
}

/// One grant of the bus: to which endpoint, and the how-many-th grant it is.
pub struct Grant {
    pub endpoint: u8,
    pub ticket: nat,
}

/// The mathematical content of an arbiter.
pub struct ArbiterView {
    /// The grant under which the bus is held, if it is held.
    pub holder: Option<Grant>,
    /// How many grants were made so far.
    pub granted: nat,
}

impl ArbiterView {
    /// An arbiter that has granted nothing yet.
    pub open spec fn fresh() -> ArbiterView {
        ArbiterView { holder: None, granted: 0 }
    }

    /// The bus is held, if at all, under the grant made last.
    pub open spec fn wf(self) -> bool {
        self.holder matches Some(grant) ==> grant.ticket + 1 == self.granted
    }

    /// Whether the bus is free.
    pub open spec fn is_free(self) -> bool {
        self.holder is None
    }

    /// The grant that `endpoint` gets if it asks now and the bus is free.
    pub open spec fn next_grant(self, endpoint: u8) -> Grant {
        Grant { endpoint, ticket: self.granted }
    }

    /// The arbiter after `endpoint` asked for the bus.
    pub open spec fn acquire(self, endpoint: u8) -> ArbiterView {
        if self.is_free() {
            ArbiterView { holder: Some(self.next_grant(endpoint)), granted: self.granted + 1 }
        } else {
            self
        }
    }

    /// Whether `grant` is the one under which the bus is held.
    pub open spec fn admits(self, grant: Grant) -> bool {
        self.holder == Some(grant)
    }

    /// The arbiter after `grant` was handed back.
    pub open spec fn release(self, grant: Grant) -> ArbiterView {
        if self.admits(grant) {
            ArbiterView { holder: None, ..self }
        } else {
            self
        }
    }
}

/// Exclusive access to the bus, from the grant until the lock is released.
#[derive(Debug, PartialEq, Eq)]
pub struct ScopedLock {
    endpoint: u8,
    ticket: u64,
}

impl View for ScopedLock {
    type V = Grant;

    closed spec fn view(&self) -> Grant {
        Grant { endpoint: self.endpoint, ticket: self.ticket as nat }
    }
}

impl ScopedLock {
    /// The number of the endpoint that the bus was granted to.
    pub fn endpoint(&self) -> (id: u8)
        ensures
            id == self@.endpoint,
    {
        self.endpoint
    }
}

/// The arbiter of the shared bus.
#[derive(Debug)]
pub struct BusArbiter {
    holder: Option<(u8, u64)>,
    granted: u64,
}

impl View for BusArbiter {
    type V = ArbiterView;

    closed spec fn view(&self) -> ArbiterView {
        ArbiterView {
            holder: match self.holder {
                Some((endpoint, ticket)) => Some(Grant { endpoint, ticket: ticket as nat }),
                None => None,
            },
            granted: self.granted as nat,
        }
    }
}

impl BusArbiter {
    #[verifier::type_invariant]
    spec fn inv(self) -> bool {
        self@.wf()
    }

    /// An arbiter whose bus is free.
    pub fn new() -> (arbiter: Self)
        ensures
            arbiter@ == ArbiterView::fresh(),
    {
        BusArbiter { holder: None, granted: 0 }
    }

    /// Whether `acquire` may be called: the count of grants has not reached
    /// the end of its range.
    pub fn can_grant(&self) -> (yes: bool)
        ensures
            yes <==> self@.granted < u64::MAX,
    {
        self.granted < u64::MAX
    }

    /// Whether the bus is free.
    pub fn is_free(&self) -> (free: bool)
        ensures
            free == self@.is_free(),
    {
        self.holder.is_none()
    }

    /// Grants the bus to `endpoint` if it is free.
    ///
    /// `None` means that the bus is held: the caller has to suspend until it
    /// is released and ask again. Arbitration itself never fails.
    pub fn acquire(&mut self, endpoint: &DeviceEndpoint) -> (lock: Option<ScopedLock>)
        requires
            old(self)@.granted < u64::MAX,
        ensures
            final(self)@ == old(self)@.acquire(endpoint@),
            final(self)@.wf(),
            lock is Some <==> old(self)@.is_free(),
            lock matches Some(granted) ==> granted@ == old(self)@.next_grant(endpoint@)
                && final(self)@.admits(granted@),
    {
        proof {
            use_type_invariant(&*self);
        }
        if self.holder.is_none() {
            let ticket = self.granted;
            *self = BusArbiter { holder: Some((endpoint.id, ticket)), granted: ticket + 1 };
            Some(ScopedLock { endpoint: endpoint.id, ticket })
        } else {
            None
        }
    }

    /// Whether the bus is held under `lock`, so that its holder may put bytes
    /// on the bus.
    pub fn admits(&self, lock: &ScopedLock) -> (admitted: bool)
        ensures
            admitted == self@.admits(lock@),
    {
        match self.holder {
            Some((endpoint, ticket)) => endpoint == lock.endpoint && ticket == lock.ticket,
            None => false,
        }
    }

    /// Takes `lock` back and frees the bus if it was held under that lock.
    ///
    /// A lock that the arbiter does not admit changes nothing.
    pub fn release(&mut self, lock: ScopedLock)
        ensures
            final(self)@ == old(self)@.release(lock@),
            final(self)@.wf(),
            old(self)@.admits(lock@) ==> final(self)@.is_free(),
    {
        proof {
            use_type_invariant(&*self);
        }
        if self.admits(&lock) {
            self.holder = None;
        }
    }
}

/// A byte on the bus, with the grant under which it was put there.
pub struct WireByte {
    pub grant: Grant,
    pub byte: u8,
}

/// What the endpoints do to the bus, in the order in which it happens.
pub enum BusOp {
    /// An endpoint asks for the bus.
    Acquire(u8),
    /// The holder of a grant wants to put a byte on the bus.
    Transfer(Grant, u8),
    /// The holder of a grant hands it back.
    Release(Grant),
}

/// The arbiter together with everything that was put on the bus.
pub struct BusTrace {
    pub arbiter: ArbiterView,
    pub wire: Seq<WireByte>,
}

impl BusTrace {
    /// A free bus on which nothing was transferred.
    pub open spec fn fresh() -> BusTrace {
        BusTrace { arbiter: ArbiterView::fresh(), wire: Seq::empty() }
    }

    /// The bus after `op`. A byte reaches the wire only under the grant that
    /// the arbiter admits.
    pub open spec fn apply(self, op: BusOp) -> BusTrace {
        match op {
            BusOp::Acquire(endpoint) => BusTrace {
                arbiter: self.arbiter.acquire(endpoint),
                wire: self.wire,
            },
            BusOp::Transfer(grant, byte) => {
                if self.arbiter.admits(grant) {
                    BusTrace { arbiter: self.arbiter, wire: self.wire.push(WireByte { grant, byte }) }
                } else {
                    self
                }
            },
            BusOp::Release(grant) => BusTrace {
                arbiter: self.arbiter.release(grant),
                wire: self.wire,
            },
        }
    }

    /// The bus after `ops`, starting from a fresh one.
    pub open spec fn replay(ops: Seq<BusOp>) -> BusTrace
        decreases ops.len(),
    {
        if ops.len() == 0 {
            BusTrace::fresh()
        } else {
            BusTrace::replay(ops.drop_last()).apply(ops.last())
        }
    }

    /// The bytes on the wire are in the order of their grants, every grant on
    /// the wire was made by the arbiter, and bytes with the same ticket belong
    /// to the same grant.
    pub open spec fn orderly(self) -> bool {
        &&& self.arbiter.wf()
        &&& forall|i: int|
            0 <= i < self.wire.len() ==> (#[trigger] self.wire[i]).grant.ticket
                < self.arbiter.granted
        &&& forall|i: int, j: int|
            0 <= i < j < self.wire.len() ==> (#[trigger] self.wire[i]).grant.ticket <= (
            #[trigger] self.wire[j]).grant.ticket
        &&& forall|i: int, j: int|
            0 <= i < self.wire.len() && 0 <= j < self.wire.len() && (
            #[trigger] self.wire[i]).grant.ticket == (#[trigger] self.wire[j]).grant.ticket
                ==> self.wire[i].grant == self.wire[j].grant
        &&& forall|i: int|
            0 <= i < self.wire.len() && self.arbiter.holder is Some && (
            #[trigger] self.wire[i]).grant.ticket + 1 == self.arbiter.granted
                ==> self.arbiter.holder == Some(self.wire[i].grant)
    }
}

/// One operation keeps the wire orderly.
proof fn lemma_apply_keeps_order(bus: BusTrace, op: BusOp)
    requires
        bus.orderly(),
    ensures
        bus.apply(op).orderly(),
{
    let after = bus.apply(op);
    match op {
        BusOp::Acquire(endpoint) => {},
        BusOp::Transfer(grant, byte) => {
            if bus.arbiter.admits(grant) {
                let last = bus.wire.len() as int;
                assert(after.wire[last].grant == grant);
                assert forall|i: int| 0 <= i < after.wire.len() implies (
                #[trigger] after.wire[i]).grant.ticket < after.arbiter.granted by {
                    if i < last {
                        assert(after.wire[i] == bus.wire[i]);
                    }
                }
                assert forall|i: int, j: int| 0 <= i < j < after.wire.len() implies (
                #[trigger] after.wire[i]).grant.ticket <= (
                #[trigger] after.wire[j]).grant.ticket by {
                    assert(after.wire[i] == bus.wire[i]);
                    if j < last {
                        assert(after.wire[j] == bus.wire[j]);
                    }
                }
                assert forall|i: int, j: int|
                    0 <= i < after.wire.len() && 0 <= j < after.wire.len() && (
                    #[trigger] after.wire[i]).grant.ticket == (
                    #[trigger] after.wire[j]).grant.ticket implies after.wire[i].grant
                    == after.wire[j].grant by {
                    if i < last {
                        assert(after.wire[i] == bus.wire[i]);
                    }
                    if j < last {
                        assert(after.wire[j] == bus.wire[j]);
                    }
                }
                assert forall|i: int|
                    0 <= i < after.wire.len() && after.arbiter.holder is Some && (
                    #[trigger] after.wire[i]).grant.ticket + 1
                        == after.arbiter.granted implies after.arbiter.holder == Some(
                    after.wire[i].grant,
                ) by {
                    if i < last {
                        assert(after.wire[i] == bus.wire[i]);
                    }
                }
            }
        },
        BusOp::Release(grant) => {},
    }
}

/// Whatever the endpoints do, the wire stays orderly.
pub proof fn lemma_replay_is_orderly(ops: Seq<BusOp>)
    ensures
        BusTrace::replay(ops).orderly(),
    decreases ops.len(),
{
    if ops.len() > 0 {
        lemma_replay_is_orderly(ops.drop_last());
        lemma_apply_keeps_order(BusTrace::replay(ops.drop_last()), ops.last());
    }
}

/// Transactions are never interleaved on the bus: whatever the endpoints do
/// and in whatever order, if some byte of one transaction is on the wire
/// before some byte of another, then every byte of the first is before every
/// byte of the second. Here `a` and `i` are positions of bytes of the first
/// transaction, `b` and `j` of the second.
pub proof fn lemma_transactions_do_not_interleave(ops: Seq<BusOp>, a: int, b: int, i: int, j: int)
    requires
        0 <= a < b < BusTrace::replay(ops).wire.len(),
        0 <= i < BusTrace::replay(ops).wire.len(),
        0 <= j < BusTrace::replay(ops).wire.len(),
        BusTrace::replay(ops).wire[a].grant != BusTrace::replay(ops).wire[b].grant,
        BusTrace::replay(ops).wire[i].grant == BusTrace::replay(ops).wire[a].grant,
        BusTrace::replay(ops).wire[j].grant == BusTrace::replay(ops).wire[b].grant,
    ensures
        i < j,
{
    lemma_replay_is_orderly(ops);
    let wire = BusTrace::replay(ops).wire;
    assert(wire[a].grant.ticket < wire[b].grant.ticket);
    if j < i {
        assert(wire[j].grant.ticket <= wire[i].grant.ticket);
    }
}

/// While the bus is held, nobody else gets it: a second request leaves the
/// arbiter as it is, and the bus is granted again only after the holder's
/// lock came back.
pub proof fn lemma_one_holder_at_a_time(arbiter: ArbiterView, first: u8, second: u8)
    requires
        arbiter.wf(),
        arbiter.is_free(),
    ensures
        arbiter.acquire(first).admits(arbiter.next_grant(first)),
        arbiter.acquire(first).acquire(second) == arbiter.acquire(first),
        arbiter.acquire(first).release(arbiter.next_grant(first)).is_free(),
        arbiter.acquire(first).release(arbiter.next_grant(first)).acquire(second).admits(
            Grant { endpoint: second, ticket: arbiter.granted + 1 },
        ),
{
}

} // verus!
