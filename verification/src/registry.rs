//! The session registry: the directory of connected clients and their
//! outbound message queues. Ids are assigned monotonically and are
//! unique for the registry's lifetime; broadcast appends a message to
//! every registered client's queue; a client registered later starts
//! with an empty queue and so sees only what is broadcast after it.
//!
//! The queues model the per-client channels: the network layer drains
//! them and writes the messages out, so a slow client never holds up
//! another.

use vstd::prelude::*;

use crate::models::{KernelUpdate, RunCellUpdate};
use crate::models::UpdateView;

verus! {

/// One message on its way out to a client: a kernel status transition
/// or a cell lifecycle update.
#[derive(Clone, Debug)]
pub enum Outbound {
    Status(KernelUpdate),
    Update(RunCellUpdate),
}

/// Mathematical view of an [`Outbound`] message.
#[verifier::ext_equal]
pub ghost enum OutboundView {
    Status(Seq<char>),
    Update(UpdateView),
}

impl View for Outbound {
    type V = OutboundView;

    open spec fn view(&self) -> OutboundView {
        match self {
            Outbound::Status(k) => OutboundView::Status(k@),
            Outbound::Update(u) => OutboundView::Update(u@),
        }
    }
}

impl DeepView for Outbound {
    type V = OutboundView;

    open spec fn deep_view(&self) -> OutboundView {
        self@
    }
}

impl Outbound {
    /// A copy of this message whose fields read the same.
    pub fn duplicate(&self) -> (r: Outbound)
        ensures
            r@ == self@,
    {
        match self {
            Outbound::Status(k) => Outbound::Status(KernelUpdate { status: k.status.clone() }),
            Outbound::Update(u) => Outbound::Update(u.duplicate()),
        }
    }
}

/// One connected client: its id and its outbound queue.
pub struct ClientSession {
    pub id: u64,
    pub outbound: Vec<Outbound>,
}

/// Mathematical view of a [`ClientSession`].
#[verifier::ext_equal]
pub ghost struct SessionView {
    pub id: u64,
    pub outbound: Seq<OutboundView>,
}

impl View for ClientSession {
    type V = SessionView;

    open spec fn view(&self) -> SessionView {
        SessionView { id: self.id, outbound: self.outbound.deep_view() }
    }
}

impl DeepView for ClientSession {
    type V = SessionView;

    open spec fn deep_view(&self) -> SessionView {
        self@
    }
}

/// Mathematical view of a [`SessionRegistry`].
#[verifier::ext_equal]
pub ghost struct RegistryView {
    pub next_id: u64,
    pub clients: Seq<SessionView>,
}

/// The registry is well formed: client ids strictly increase in
/// registration order (so they are unique), and each is below the
/// counter that will serve the next client.
pub open spec fn registry_wf(r: RegistryView) -> bool {
    &&& forall|i: int, j: int|
        0 <= i < j < r.clients.len() ==> r.clients[i].id < r.clients[j].id
    &&& forall|i: int| 0 <= i < r.clients.len() ==> #[trigger] r.clients[i].id < r.next_id
}

/// The directory of connected clients.
pub struct SessionRegistry {
    pub next_id: u64,
    pub clients: Vec<ClientSession>,
}

impl View for SessionRegistry {
    type V = RegistryView;

    open spec fn view(&self) -> RegistryView {
        RegistryView { next_id: self.next_id, clients: self.clients.deep_view() }
    }
}


/// The registry after a broadcast of `m`: every client keeps its id
/// and gains `m` at the end of its queue.
pub open spec fn spec_broadcast(r: RegistryView, m: OutboundView) -> RegistryView {
    RegistryView {
        next_id: r.next_id,
        clients: Seq::new(r.clients.len(), |i: int| SessionView {
            id: r.clients[i].id,
            outbound: r.clients[i].outbound.push(m),
        }),
    }
}

/// The registry after a registration: the counter advances and the new
/// client stands last, with an empty queue.
pub open spec fn spec_register(r: RegistryView) -> RegistryView {
    RegistryView {
        next_id: (r.next_id + 1) as u64,
        clients: r.clients.push(SessionView { id: r.next_id, outbound: Seq::empty() }),
    }
}

/// Fan-out completeness: a broadcast reaches every client registered at
/// that moment — each of the queues gains exactly the broadcast
/// message, at the end, with everything earlier kept.
pub proof fn lemma_fanout_completeness(r: RegistryView, m: OutboundView)
    ensures
        spec_broadcast(r, m).clients.len() == r.clients.len(),
        forall|i: int| 0 <= i < r.clients.len()
            ==> (#[trigger] spec_broadcast(r, m).clients[i].outbound)
                == r.clients[i].outbound.push(m),
        forall|i: int| 0 <= i < r.clients.len()
            ==> (#[trigger] spec_broadcast(r, m).clients[i].outbound.last()) == m,
{
}

/// A late joiner misses earlier broadcasts: a client registered after a
/// broadcast starts with an empty queue, so it holds nothing of what
/// was broadcast before its registration.
pub proof fn lemma_late_joiner_misses_earlier(r: RegistryView, m: OutboundView)
    ensures
        spec_register(spec_broadcast(r, m)).clients.last().outbound
            == Seq::<OutboundView>::empty(),
{
}

/// Ids alone decide well-formedness: a registry whose clients keep
/// their ids and count, under the same counter, stays well formed.
proof fn lemma_wf_ids_kept(r1: RegistryView, r2: RegistryView)
    requires
        registry_wf(r1),
        r2.next_id == r1.next_id,
        r2.clients.len() == r1.clients.len(),
        forall|i: int| 0 <= i < r1.clients.len() ==> #[trigger] r2.clients[i].id == r1.clients[i].id,
    ensures
        registry_wf(r2),
{
}

/// Removing one client keeps the registry well formed.
proof fn lemma_wf_remove(r: RegistryView, i: int)
    requires
        registry_wf(r),
        0 <= i < r.clients.len(),
    ensures
        registry_wf(RegistryView { next_id: r.next_id, clients: r.clients.remove(i) }),
{
    let s = r.clients.remove(i);
    assert forall|a: int, b: int| 0 <= a < b < s.len() implies s[a].id < s[b].id by {
        if i <= a {
            assert(s[a] == r.clients[a + 1]);
        }
        if i <= b {
            assert(s[b] == r.clients[b + 1]);
        }
    }
    assert forall|a: int| 0 <= a < s.len() implies #[trigger] s[a].id < r.next_id by {
        if i <= a {
            assert(s[a] == r.clients[a + 1]);
        }
    }
}

impl SessionRegistry {
    /// An empty registry; the first client will get id 1.
    pub fn new() -> (r: SessionRegistry)
        ensures
            r@.clients == Seq::<SessionView>::empty(),
            r@.next_id == 1,
            registry_wf(r@),
    {
        let r = SessionRegistry { next_id: 1, clients: Vec::new() };
        proof {
            assert(r@.clients =~= Seq::<SessionView>::empty());
        }
        r
    }

    /// Admits a new client under the next unique id. The new client's
    /// queue starts empty: it sees only what is broadcast from now on.
    /// Every other client is untouched.
    pub fn register(&mut self) -> (r: u64)
        requires
            registry_wf(old(self)@),
            old(self)@.next_id < u64::MAX,
        ensures
            registry_wf(final(self)@),
            r == old(self)@.next_id,
            final(self)@.next_id == old(self)@.next_id + 1,
            final(self)@.clients == old(self)@.clients.push(
                (SessionView { id: r, outbound: Seq::empty() }),
            ),
            final(self)@ == spec_register(old(self)@),
    {
        let id = self.next_id;
        self.next_id = self.next_id + 1;
        self.clients.push(ClientSession { id, outbound: Vec::new() });
        proof {
            assert(self@.clients =~~= old(self)@.clients.push(
                (SessionView { id: id, outbound: Seq::empty() }),
            ));
            assert(self@ =~~= spec_register(old(self)@));
        }
        id
    }

    /// Removes the client with `id`, keeping every other client and its
    /// queue. Safe to call when `id` is already absent — a disconnect
    /// may race another removal — in which case nothing changes.
    pub fn unregister(&mut self, id: u64) -> (removed: bool)
        requires
            registry_wf(old(self)@),
        ensures
            registry_wf(final(self)@),
            final(self)@.next_id == old(self)@.next_id,
            removed == exists|i: int|
                0 <= i < old(self)@.clients.len() && (#[trigger] old(self)@.clients[i].id) == id,
            removed ==> exists|i: int|
                0 <= i < old(self)@.clients.len() && (#[trigger] old(self)@.clients[i].id) == id
                    && final(self)@.clients == old(self)@.clients.remove(i),
            !removed ==> final(self)@.clients == old(self)@.clients,
    {
        let ghost pre = self@.clients;
        let mut i: usize = 0;
        while i < self.clients.len()
            invariant
                registry_wf(old(self)@),
                pre == old(self)@.clients,
                i <= self.clients.len(),
                self@.next_id == old(self)@.next_id,
                self@.clients == pre,
                forall|j: int| 0 <= j < i ==> (#[trigger] pre[j].id) != id,
            decreases self.clients.len() - i,
        {
            if self.clients[i].id == id {
                let ghost k = i as int;
                proof {
                    assert(pre[k].id == id);
                }
                self.clients.remove(i);
                proof {
                    assert(self@.clients =~~= pre.remove(k));
                    lemma_wf_remove(old(self)@, k);
                    assert(0 <= k < old(self)@.clients.len()
                        && old(self)@.clients[k].id == id
                        && self@.clients == old(self)@.clients.remove(k));
                }
                return true;
            }
            i = i + 1;
        }
        proof {
            assert(self@.clients =~~= pre);
        }
        false
    }

    /// Fan-out: appends `msg` to the outbound queue of every currently
    /// registered client — all of them, each keeping its id and its
    /// earlier messages in order.
    pub fn broadcast(&mut self, msg: &Outbound)
        requires
            registry_wf(old(self)@),
        ensures
            registry_wf(final(self)@),
            final(self)@.next_id == old(self)@.next_id,
            final(self)@.clients.len() == old(self)@.clients.len(),
            forall|i: int| 0 <= i < old(self)@.clients.len()
                ==> (#[trigger] final(self)@.clients[i]) == (SessionView {
                    id: old(self)@.clients[i].id,
                    outbound: old(self)@.clients[i].outbound.push(msg@),
                }),
            final(self)@ == spec_broadcast(old(self)@, msg@),
    {
        let ghost pre = self@.clients;
        let mut i: usize = 0;
        while i < self.clients.len()
            invariant
                pre == old(self)@.clients,
                i <= self.clients.len(),
                self@.next_id == old(self)@.next_id,
                self@.clients.len() == pre.len(),
                forall|j: int| i <= j < pre.len() ==> (#[trigger] self@.clients[j]) == pre[j],
                forall|j: int| 0 <= j < i ==> (#[trigger] self@.clients[j]) == (SessionView {
                    id: pre[j].id,
                    outbound: pre[j].outbound.push(msg@),
                }),
            decreases self.clients.len() - i,
        {
            let m = msg.duplicate();
            let ghost prevvec = self.clients@;
            let ghost predv = self@.clients;
            proof {
                assert(predv[i as int] == pre[i as int]);
                assert(prevvec[i as int]@ == pre[i as int]);
            }
            let client = &mut self.clients[i];
            client.outbound.push(m);
            proof {
                assert(self.clients@[i as int].outbound@ == prevvec[i as int].outbound@.push(m));
                assert forall|j: int| 0 <= j < pre.len() && j != i as int
                    implies #[trigger] self@.clients[j] == predv[j] by {
                    assert(self.clients@[j] == prevvec[j]);
                }
                assert(self@.clients[i as int].outbound =~= pre[i as int].outbound.push(msg@));
                assert(self@.clients[i as int] =~~= (SessionView {
                    id: pre[i as int].id,
                    outbound: pre[i as int].outbound.push(msg@),
                }));
            }
            i = i + 1;
        }
        proof {
            lemma_wf_ids_kept(old(self)@, self@);
            assert(self@ =~~= spec_broadcast(old(self)@, msg@));
        }
    }

    /// Appends `msg` to the queue of the client with `id` alone, if it
    /// is registered; every other client is untouched.
    pub fn send_to(&mut self, id: u64, msg: &Outbound)
        requires
            registry_wf(old(self)@),
        ensures
            registry_wf(final(self)@),
            final(self)@.next_id == old(self)@.next_id,
            final(self)@.clients.len() == old(self)@.clients.len(),
            forall|i: int| 0 <= i < old(self)@.clients.len() && old(self)@.clients[i].id != id
                ==> (#[trigger] final(self)@.clients[i]) == old(self)@.clients[i],
            forall|i: int| 0 <= i < old(self)@.clients.len() && old(self)@.clients[i].id == id
                ==> (#[trigger] final(self)@.clients[i]) == (SessionView {
                    id: old(self)@.clients[i].id,
                    outbound: old(self)@.clients[i].outbound.push(msg@),
                }),
    {
        let ghost pre = self@.clients;
        let mut i: usize = 0;
        while i < self.clients.len()
            invariant
                pre == old(self)@.clients,
                i <= self.clients.len(),
                self@.next_id == old(self)@.next_id,
                self@.clients.len() == pre.len(),
                forall|j: int| i <= j < pre.len() ==> (#[trigger] self@.clients[j]) == pre[j],
                forall|j: int| 0 <= j < i && pre[j].id != id
                    ==> (#[trigger] self@.clients[j]) == pre[j],
                forall|j: int| 0 <= j < i && pre[j].id == id
                    ==> (#[trigger] self@.clients[j]) == (SessionView {
                        id: pre[j].id,
                        outbound: pre[j].outbound.push(msg@),
                    }),
            decreases self.clients.len() - i,
        {
            if self.clients[i].id == id {
                let m = msg.duplicate();
                let ghost prevvec = self.clients@;
                let ghost predv = self@.clients;
                proof {
                    assert(predv[i as int] == pre[i as int]);
                    assert(prevvec[i as int]@ == pre[i as int]);
                }
                let client = &mut self.clients[i];
                client.outbound.push(m);
                proof {
                    assert(self.clients@[i as int].outbound@ == prevvec[i as int].outbound@.push(m));
                    assert forall|j: int| 0 <= j < pre.len() && j != i as int
                        implies #[trigger] self@.clients[j] == predv[j] by {
                        assert(self.clients@[j] == prevvec[j]);
                    }
                    assert(self@.clients[i as int].outbound =~= pre[i as int].outbound.push(msg@));
                    assert(self@.clients[i as int] =~~= (SessionView {
                        id: pre[i as int].id,
                        outbound: pre[i as int].outbound.push(msg@),
                    }));
                }
            }
            i = i + 1;
        }
        proof {
            lemma_wf_ids_kept(old(self)@, self@);
        }
    }

    /// Hands out and empties the queue of the client with `id`: what the
    /// network layer now writes to that client, in order. Empty if the
    /// id is absent.
    pub fn drain(&mut self, id: u64) -> (r: Vec<Outbound>)
        requires
            registry_wf(old(self)@),
        ensures
            registry_wf(final(self)@),
            final(self)@.next_id == old(self)@.next_id,
            final(self)@.clients.len() == old(self)@.clients.len(),
            forall|i: int| 0 <= i < old(self)@.clients.len() && old(self)@.clients[i].id != id
                ==> (#[trigger] final(self)@.clients[i]) == old(self)@.clients[i],
            forall|i: int| 0 <= i < old(self)@.clients.len() && old(self)@.clients[i].id == id
                ==> ((#[trigger] final(self)@.clients[i]) == (SessionView {
                    id: old(self)@.clients[i].id,
                    outbound: Seq::empty(),
                }) && r.deep_view() == old(self)@.clients[i].outbound),
    {
        let ghost pre = self@.clients;
        let mut i: usize = 0;
        while i < self.clients.len()
            invariant
                registry_wf(old(self)@),
                pre == old(self)@.clients,
                i <= self.clients.len(),
                self@.next_id == old(self)@.next_id,
                self@.clients == pre,
                forall|j: int| 0 <= j < i ==> (#[trigger] pre[j].id) != id,
            decreases self.clients.len() - i,
        {
            if self.clients[i].id == id {
                let ghost prevvec = self.clients@;
                let ghost predv = self@.clients;
                proof {
                    assert(predv[i as int] == pre[i as int]);
                    assert(prevvec[i as int]@ == pre[i as int]);
                }
                let mut taken: Vec<Outbound> = Vec::new();
                let client = &mut self.clients[i];
                core::mem::swap(&mut client.outbound, &mut taken);
                proof {
                    assert forall|j: int| 0 <= j < pre.len() && j != i as int
                        implies #[trigger] self@.clients[j] == predv[j] by {
                        assert(self.clients@[j] == prevvec[j]);
                    }
                    assert(self@.clients[i as int].outbound =~= Seq::<OutboundView>::empty());
                    assert(self@.clients[i as int] =~~= (SessionView {
                        id: pre[i as int].id,
                        outbound: Seq::empty(),
                    }));
                    assert(taken.deep_view() =~= pre[i as int].outbound);
                    lemma_wf_ids_kept(old(self)@, self@);
                }
                return taken;
            }
            i = i + 1;
        }
        let r: Vec<Outbound> = Vec::new();
        proof {
            assert(self@.clients =~~= pre);
            assert(r.deep_view() =~= Seq::<OutboundView>::empty());
        }
        r
    }
}

} // verus!
