//! Typed signal connections and their delivery order.
//!
//! The native toolkit lets any number of closures be connected to a named
//! signal of an object; an emission invokes every connection still active,
//! in registration order. The hub below is the verified registry behind
//! that mechanism: it hands out connection identifiers, records
//! disconnection, and computes the exact delivery order of an emission.
//! The caller owns the table from identifier to closure and invokes the
//! closures in the returned order, so the untyped bridging stays outside
//! the verified core.

use vstd::prelude::*;
use vstd::string::StringExecFns;

verus! {

/// One registered connection: its identifier, the signal it listens to,
/// and whether it is still active.
pub struct Connection {
    pub id: u64,
    pub signal: String,
    pub active: bool,
}

/// The mathematical image of one connection.
pub ghost struct ConnSpec {
    pub id: u64,
    pub signal: Seq<char>,
    pub active: bool,
}

impl View for Connection {
    type V = ConnSpec;

    open spec fn view(&self) -> ConnSpec {
        ConnSpec { id: self.id, signal: self.signal@, active: self.active }
    }
}

/// What registering one connection leaves behind.
pub open spec fn connect_spec(conns: Seq<ConnSpec>, signal: Seq<char>, id: u64) -> Seq<ConnSpec> {
    conns.push(ConnSpec { id, signal, active: true })
}

/// What disconnecting identifier `id` leaves behind: the matching
/// connection goes inactive, everything else is untouched.
pub open spec fn disconnect_spec(conns: Seq<ConnSpec>, id: u64) -> Seq<ConnSpec> {
    conns.map(
        |i: int, c: ConnSpec|
            if c.id == id {
                ConnSpec { active: false, ..c }
            } else {
                c
            },
    )
}

/// The delivery order of one emission of `signal`: the identifiers of the
/// active connections listening to it, in registration order.
pub open spec fn deliveries(conns: Seq<ConnSpec>, signal: Seq<char>) -> Seq<u64>
    decreases conns.len(),
{
    if conns.len() == 0 {
        Seq::empty()
    } else {
        let head = deliveries(conns.drop_last(), signal);
        let last = conns.last();
        if last.active && last.signal == signal {
            head.push(last.id)
        } else {
            head
        }
    }
}

/// The registry of signal connections of one object.
pub struct SignalHub {
    pub connections: Vec<Connection>,
    pub next_id: u64,
}

impl SignalHub {
    /// The mathematical image of the registry.
    pub open spec fn conns(self) -> Seq<ConnSpec> {
        self.connections@.map(|i: int, c: Connection| c@)
    }

    /// Identifiers are handed out below `next_id` and never repeat.
    pub open spec fn wf(self) -> bool {
        &&& forall|k: int| 0 <= k < self.conns().len() ==> self.conns()[k].id < self.next_id
        &&& forall|k1: int, k2: int|
            0 <= k1 < k2 < self.conns().len() ==> self.conns()[k1].id != self.conns()[k2].id
    }

    /// An empty registry; identifiers start at one, so zero never names a
    /// connection.
    pub fn new() -> (r: SignalHub)
        ensures
            r.conns().len() == 0,
            r.next_id == 1,
            r.wf(),
    {
        let r = SignalHub { connections: Vec::new(), next_id: 1 };
        proof {
            assert(r.conns() =~= Seq::<ConnSpec>::empty());
        }
        r
    }

    /// Registers a connection to `signal` and returns its fresh
    /// identifier. The connection starts active and is appended after
    /// every earlier one, so it fires last.
    pub fn connect(&mut self, signal: &str) -> (id: u64)
        requires
            old(self).wf(),
            old(self).next_id < u64::MAX,
        ensures
            id == old(self).next_id,
            final(self).conns() == connect_spec(old(self).conns(), signal@, id),
            final(self).next_id == old(self).next_id + 1,
            final(self).wf(),
    {
        let id = self.next_id;
        self.next_id = self.next_id + 1;
        let owned = String::from_str(signal);
        self.connections.push(Connection { id, signal: owned, active: true });
        proof {
            assert(self.conns() =~= connect_spec(old(self).conns(), signal@, id));
        }
        id
    }

    /// Cancels future delivery to connection `id`; returns whether an
    /// active connection with that identifier existed. Disconnecting an
    /// unknown or already disconnected identifier changes nothing.
    pub fn disconnect(&mut self, id: u64) -> (was: bool)
        requires
            old(self).wf(),
        ensures
            final(self).conns() == disconnect_spec(old(self).conns(), id),
            final(self).next_id == old(self).next_id,
            final(self).wf(),
            was == (exists|k: int|
                0 <= k < old(self).conns().len() && old(self).conns()[k].id == id && old(
                self,
            ).conns()[k].active),
    {
        let n = self.connections.len();
        let mut k: usize = 0;
        while k < n
            invariant
                old(self).wf(),
                self == old(self),
                n == self.connections@.len(),
                k <= n,
                forall|j: int| 0 <= j < k ==> old(self).conns()[j].id != id,
            decreases n - k,
        {
            if self.connections[k].id == id {
                let was = self.connections[k].active;
                let signal = self.connections[k].signal.clone();
                self.connections.set(k, Connection { id, signal, active: false });
                proof {
                    assert forall|j: int|
                        0 <= j < n && j != k implies old(self).conns()[j].id != id by {
                        if j < k {
                        } else {
                            assert(old(self).conns()[k as int].id == id);
                        }
                    }
                    assert(self.conns() =~= disconnect_spec(old(self).conns(), id));
                    let g = old(self).conns();
                    if g[k as int].active {
                        assert(0 <= k < g.len() && g[k as int].id == id && g[k as int].active);
                    } else {
                        assert forall|j: int| 0 <= j < g.len() && g[j].id == id implies !g[j].active by {
                            assert(g[k as int].id == id);
                            if j != k {
                                if j < k {
                                    assert(g[j].id != g[k as int].id);
                                } else {
                                    assert(g[k as int].id != g[j].id);
                                }
                            }
                        }
                    }
                }
                return was;
            }
            k = k + 1;
        }
        proof {
            assert(self.conns() =~= disconnect_spec(old(self).conns(), id));
        }
        false
    }

    /// The delivery order of one emission of `signal`: every active
    /// connection to it fires, in registration order.
    pub fn emission_order(&self, signal: &str) -> (ids: Vec<u64>)
        ensures
            ids@ == deliveries(self.conns(), signal@),
    {
        let n = self.connections.len();
        let mut ids: Vec<u64> = Vec::new();
        let mut k: usize = 0;
        proof {
            assert(self.conns().subrange(0, 0) =~= Seq::<ConnSpec>::empty());
        }
        while k < n
            invariant
                n == self.connections@.len(),
                k <= n,
                ids@ == deliveries(self.conns().subrange(0, k as int), signal@),
            decreases n - k,
        {
            proof {
                assert(self.conns().subrange(0, k + 1 as int).drop_last() =~= self.conns().subrange(
                    0,
                    k as int,
                ));
                assert(self.conns().subrange(0, k + 1 as int).last() == self.conns()[k as int]);
            }
            let active = self.connections[k].active;
            if active && crate::text::str_eq(self.connections[k].signal.as_str(), signal) {
                let cid = self.connections[k].id;
                ids.push(cid);
            }
            k = k + 1;
        }
        proof {
            assert(self.conns().subrange(0, n as int) =~= self.conns());
        }
        ids
    }
}

/// Two connections to the same signal both fire on one emission, in
/// registration order: whatever was connected before them fires first,
/// then the first of the two, then the second.
pub proof fn lemma_two_connections_fire_in_order(
    conns: Seq<ConnSpec>,
    signal: Seq<char>,
    ia: u64,
    ib: u64,
)
    ensures
        deliveries(connect_spec(connect_spec(conns, signal, ia), signal, ib), signal)
            == deliveries(conns, signal).push(ia).push(ib),
{
    let l1 = connect_spec(conns, signal, ia);
    let l2 = connect_spec(l1, signal, ib);
    assert(l2.drop_last() =~= l1);
    assert(l1.drop_last() =~= conns);
    assert(l2.last() == ConnSpec { id: ib, signal, active: true });
    assert(l1.last() == ConnSpec { id: ia, signal, active: true });
    assert(deliveries(l2, signal) == deliveries(l1, signal).push(ib));
    assert(deliveries(l1, signal) == deliveries(conns, signal).push(ia));
}

/// Disconnecting the first of two connections before the emission means
/// only the remaining one fires.
pub proof fn lemma_disconnected_does_not_fire(
    conns: Seq<ConnSpec>,
    signal: Seq<char>,
    ia: u64,
    ib: u64,
)
    requires
        ia != ib,
        forall|k: int| 0 <= k < conns.len() ==> conns[k].id != ia,
    ensures
        deliveries(
            disconnect_spec(connect_spec(connect_spec(conns, signal, ia), signal, ib), ia),
            signal,
        ) == deliveries(conns, signal).push(ib),
{
    let l2 = connect_spec(connect_spec(conns, signal, ia), signal, ib);
    let d = disconnect_spec(l2, ia);
    let silenced = ConnSpec { id: ia, signal, active: false };
    let kept = ConnSpec { id: ib, signal, active: true };
    assert(d =~= conns.push(silenced).push(kept));
    let e = conns.push(silenced).push(kept);
    assert(e.drop_last() =~= conns.push(silenced));
    assert(conns.push(silenced).drop_last() =~= conns);
    assert(e.last() == kept);
    assert(conns.push(silenced).last() == silenced);
    assert(deliveries(e, signal) == deliveries(conns.push(silenced), signal).push(ib));
    assert(deliveries(conns.push(silenced), signal) == deliveries(conns, signal));
}

} // verus!
