//! The kernel session bridge: one shared kernel connection, one session
//! registry, and the per-cell protocol between them.
//!
//! Concurrent submissions are serialized: every step here takes the
//! bridge exclusively (the caller holds it behind one lock), and the
//! `submitted` history records the order in which submissions acquired
//! that exclusive access. Each submission is recorded as the current
//! cell and announced as `queued` to every client before the next one
//! can enter, so the kernel observes cells strictly one at a time, in
//! the order of the history.

use vstd::prelude::*;

use crate::connection::KernelConnection;
use crate::models::{KernelError, KernelUpdate, RunCell, RunCellUpdate};
use crate::models::{CellView, UpdateView};
use crate::normalize::{normalize, spec_normalize, EventView, IoPubEvent};
use crate::numfmt::{i64_to_string, spec_i64_string};
use crate::registry::{
    registry_wf, spec_broadcast, spec_register, Outbound, OutboundView, RegistryView,
    SessionRegistry, SessionView,
};

verus! {

/// The `queued` update of a cell: broadcast the moment a submission is
/// accepted, before the kernel is asked to run it.
pub open spec fn spec_queued(cell: CellView) -> UpdateView {
    UpdateView { id: cell.id, name: "queued"@, value: ":"@ }
}

/// The `count` update of a cell: carries the kernel-assigned execution
/// counter, rendered in decimal.
pub open spec fn spec_count(cell: CellView, count: int) -> UpdateView {
    UpdateView { id: cell.id, name: "count"@, value: spec_i64_string(count) }
}

/// The `error` update of a cell whose submission failed against the
/// kernel.
pub open spec fn spec_failed(cell: CellView) -> UpdateView {
    UpdateView { id: cell.id, name: "error"@, value: "failed to run code"@ }
}

/// The `queued` update of `cell`.
pub fn queued_update(cell: &RunCell) -> (r: RunCellUpdate)
    ensures
        r@ == spec_queued(cell@),
{
    RunCellUpdate { id: cell.id.clone(), name: "queued".to_owned(), value: ":".to_owned() }
}

/// The `count` update of `cell` for execution counter `count`.
pub fn count_update(cell: &RunCell, count: i64) -> (r: RunCellUpdate)
    ensures
        r@ == spec_count(cell@, count as int),
{
    RunCellUpdate {
        id: cell.id.clone(),
        name: "count".to_owned(),
        value: i64_to_string(count),
    }
}

/// The `error` update of `cell` whose submission failed.
pub fn failed_update(cell: &RunCell) -> (r: RunCellUpdate)
    ensures
        r@ == spec_failed(cell@),
{
    RunCellUpdate {
        id: cell.id.clone(),
        name: "error".to_owned(),
        value: "failed to run code".to_owned(),
    }
}

/// Mathematical view of a [`Bridge`].
#[verifier::ext_equal]
pub ghost struct BridgeView {
    pub registry: RegistryView,
    pub last: Option<CellView>,
    pub submitted: Seq<CellView>,
}

/// A bridge after one accepted submission: the cell enters the history
/// and the current-cell slot, and its `queued` update reaches every
/// client registered at that moment.
pub open spec fn spec_submit(b: BridgeView, cell: CellView) -> BridgeView {
    BridgeView {
        registry: spec_broadcast(b.registry, OutboundView::Update(spec_queued(cell))),
        last: Some(cell),
        submitted: b.submitted.push(cell),
    }
}

/// The bridge: what all client gateways share.
pub struct Bridge {
    pub registry: SessionRegistry,
    pub conn: KernelConnection,
    pub submitted: Vec<RunCell>,
}

impl View for Bridge {
    type V = BridgeView;

    open spec fn view(&self) -> BridgeView {
        BridgeView {
            registry: self.registry@,
            last: self.conn@,
            submitted: self.submitted.deep_view(),
        }
    }
}

/// The bridge is well formed: its registry is, and the current-cell
/// slot holds exactly the last cell of the submission history.
pub open spec fn bridge_wf(b: BridgeView) -> bool {
    &&& registry_wf(b.registry)
    &&& b.submitted.len() > 0 ==> b.last == Some(b.submitted.last())
    &&& b.submitted.len() == 0 ==> b.last is None
}

impl Bridge {
    /// A fresh bridge: no clients, no submission yet.
    pub fn new() -> (r: Bridge)
        ensures
            bridge_wf(r@),
            r@.registry.clients == Seq::<SessionView>::empty(),
            r@.registry.next_id == 1,
            r@.last is None,
            r@.submitted == Seq::<CellView>::empty(),
    {
        let r = Bridge {
            registry: SessionRegistry::new(),
            conn: KernelConnection::new(),
            submitted: Vec::new(),
        };
        proof {
            assert(r@.submitted =~= Seq::<CellView>::empty());
        }
        r
    }

    /// Admits a connecting client and tells it — it alone — that the
    /// shared kernel is ready. Nothing else changes.
    pub fn client_connected(&mut self) -> (r: u64)
        requires
            bridge_wf(old(self)@),
            old(self)@.registry.next_id < u64::MAX,
        ensures
            bridge_wf(final(self)@),
            r == old(self)@.registry.next_id,
            final(self)@.last == old(self)@.last,
            final(self)@.submitted == old(self)@.submitted,
            final(self)@.registry.next_id == old(self)@.registry.next_id + 1,
            final(self)@.registry.clients == old(self)@.registry.clients.push(
                (SessionView {
                    id: r,
                    outbound: seq![OutboundView::Status("ready"@)],
                }),
            ),
    {
        let id = self.registry.register();
        let ready = Outbound::Status(KernelUpdate { status: "ready".to_owned() });
        self.registry.send_to(id, &ready);
        proof {
            let mid = spec_register(old(self)@.registry).clients;
            assert forall|i: int| 0 <= i < mid.len() - 1
                implies #[trigger] self@.registry.clients[i] == old(self)@.registry.clients[i] by {
                assert(mid[i] == old(self)@.registry.clients[i]);
                assert(mid[i].id < mid[mid.len() - 1].id);
            }
            assert(self@.registry.clients[mid.len() - 1] =~~= (SessionView {
                id: id,
                outbound: seq![OutboundView::Status("ready"@)],
            }));
            assert(self@.registry.clients =~~= old(self)@.registry.clients.push(
                (SessionView {
                    id: id,
                    outbound: seq![OutboundView::Status("ready"@)],
                }),
            ));
        }
        id
    }

    /// Removes a disconnected client. The kernel connection and every
    /// other client are untouched; safe when the id is already gone.
    pub fn client_disconnected(&mut self, id: u64)
        requires
            bridge_wf(old(self)@),
        ensures
            bridge_wf(final(self)@),
            final(self)@.last == old(self)@.last,
            final(self)@.submitted == old(self)@.submitted,
            final(self)@.registry.next_id == old(self)@.registry.next_id,
            forall|i: int| 0 <= i < final(self)@.registry.clients.len()
                ==> (#[trigger] final(self)@.registry.clients[i].id) != id,
    {
        self.registry.unregister(id);
        proof {
            if exists|i: int| 0 <= i < old(self)@.registry.clients.len()
                && (#[trigger] old(self)@.registry.clients[i].id) == id {
                let k = choose|i: int| 0 <= i < old(self)@.registry.clients.len()
                    && (#[trigger] old(self)@.registry.clients[i].id) == id
                    && self@.registry.clients == old(self)@.registry.clients.remove(i);
                assert forall|i: int| 0 <= i < self@.registry.clients.len()
                    implies (#[trigger] self@.registry.clients[i].id) != id by {
                    if i < k {
                        assert(self@.registry.clients[i] == old(self)@.registry.clients[i]);
                        assert(old(self)@.registry.clients[i].id
                            < old(self)@.registry.clients[k].id);
                    } else {
                        assert(self@.registry.clients[i] == old(self)@.registry.clients[i + 1]);
                        assert(old(self)@.registry.clients[k].id
                            < old(self)@.registry.clients[i + 1].id);
                    }
                }
            }
        }
    }

    /// Accepts one submission: records `cell` as the current cell —
    /// every event normalized from now until the next submission is
    /// attributed to it — appends it to the submission history, and
    /// broadcasts its `queued` update to every registered client. The
    /// caller then sends the execute request to the kernel and finishes
    /// with [`Bridge::finish_submission`].
    pub fn submit(&mut self, cell: RunCell)
        requires
            bridge_wf(old(self)@),
        ensures
            bridge_wf(final(self)@),
            final(self)@ == spec_submit(old(self)@, cell@),
    {
        let queued = Outbound::Update(queued_update(&cell));
        self.conn.record_submission(cell);
        let ghost precell = self.conn@->Some_0;
        self.registry.broadcast(&queued);
        proof {
            assert(self@.submitted == old(self)@.submitted);
        }
        // the history gains the cell the connection now holds
        let last = match &self.conn.last_run_cell {
            Some(c) => c.duplicate(),
            None => {
                proof {
                    assert(false);
                }
                RunCell { id: String::new(), value: String::new() }
            },
        };
        self.submitted.push(last);
        proof {
            assert(self@.submitted =~= old(self)@.submitted.push(precell));
            assert(self@ =~~= spec_submit(old(self)@, precell));
        }
    }

    /// Handles one inbound client message, already parsed from the
    /// wire: a well-formed cell is submitted as [`Bridge::submit`] does
    /// and returned for the caller to run; a malformed message — one
    /// that did not parse as a cell — is dropped with a client protocol
    /// error, the connection stays open, and nothing changes.
    pub fn client_message(&mut self, parsed: Option<RunCell>) -> (r: Result<RunCell, KernelError>)
        requires
            bridge_wf(old(self)@),
        ensures
            bridge_wf(final(self)@),
            parsed matches Some(c) ==> final(self)@ == spec_submit(old(self)@, c@)
                && (r matches Ok(rc) && rc@ == c@),
            parsed is None ==> final(self)@ == old(self)@
                && r == Err::<RunCell, KernelError>(KernelError::ClientProtocol),
    {
        match parsed {
            Some(c) => {
                let run = c.duplicate();
                self.submit(c);
                Ok(run)
            },
            None => {
                proof {
                    assert(self@ =~~= old(self)@);
                }
                Err(KernelError::ClientProtocol)
            },
        }
    }

    /// Ends one submission with what the shell channel handed back: on
    /// a reply, the execution counter is broadcast to every client as
    /// the cell's `count` update and returned; on none, the failure is
    /// surfaced to every client as the cell's `error` update and an
    /// execution error is returned — the session survives.
    pub fn finish_submission(&mut self, cell: &RunCell, reply: Option<i64>) -> (r: Result<
        i64,
        KernelError,
    >)
        requires
            bridge_wf(old(self)@),
        ensures
            bridge_wf(final(self)@),
            final(self)@.last == old(self)@.last,
            final(self)@.submitted == old(self)@.submitted,
            reply matches Some(n) ==> r == Ok::<i64, KernelError>(n)
                && final(self)@.registry == spec_broadcast(
                old(self)@.registry,
                OutboundView::Update(spec_count(cell@, n as int)),
            ),
            reply is None ==> r == Err::<i64, KernelError>(KernelError::Execution)
                && final(self)@.registry == spec_broadcast(
                old(self)@.registry,
                OutboundView::Update(spec_failed(cell@)),
            ),
    {
        let outcome = self.conn.complete_submission(reply);
        match outcome {
            Ok(n) => {
                let msg = Outbound::Update(count_update(cell, n));
                self.registry.broadcast(&msg);
                Ok(n)
            },
            Err(e) => {
                let msg = Outbound::Update(failed_update(cell));
                self.registry.broadcast(&msg);
                Err(e)
            },
        }
    }

    /// Handles one raw broadcast event from the kernel: normalizes it
    /// against the current cell and, if the mapping produces an update,
    /// broadcasts it to every registered client; a suppressed event —
    /// `busy`, unrecognized, or any event while no cell was ever
    /// submitted — changes nothing.
    pub fn kernel_event(&mut self, ev: &IoPubEvent)
        requires
            bridge_wf(old(self)@),
        ensures
            bridge_wf(final(self)@),
            final(self)@.last == old(self)@.last,
            final(self)@.submitted == old(self)@.submitted,
            spec_normalize(old(self)@.last, ev@) matches Some(u)
                ==> final(self)@.registry == spec_broadcast(
                old(self)@.registry,
                OutboundView::Update(u),
            ),
            spec_normalize(old(self)@.last, ev@) is None
                ==> final(self)@.registry == old(self)@.registry,
    {
        let update = normalize(&self.conn.last_run_cell, ev);
        match update {
            Some(u) => {
                let msg = Outbound::Update(u);
                self.registry.broadcast(&msg);
            },
            None => {
                proof {
                    assert(self@.registry =~~= old(self)@.registry);
                }
            },
        }
    }
}

/// Single-flight execution: submissions acquire the bridge exclusively,
/// and the history records that order. After two submissions in order,
/// every client registered throughout holds the first cell's `queued`
/// update strictly before the second's — the broadcast order matches
/// the acquisition order — and the kernel sees the cells in exactly the
/// history's order.
pub proof fn lemma_single_flight(b0: BridgeView, c1: CellView, c2: CellView, i: int)
    requires
        0 <= i < b0.registry.clients.len(),
    ensures
        spec_submit(spec_submit(b0, c1), c2).submitted == b0.submitted + seq![c1, c2],
        spec_submit(spec_submit(b0, c1), c2).registry.clients[i].outbound
            == b0.registry.clients[i].outbound.push(
            OutboundView::Update(spec_queued(c1)),
        ).push(OutboundView::Update(spec_queued(c2))),
{
    assert(spec_submit(spec_submit(b0, c1), c2).submitted =~= b0.submitted + seq![c1, c2]);
}

/// A bridge after a whole sequence of submissions, in order.
pub open spec fn spec_submit_all(b: BridgeView, cells: Seq<CellView>) -> BridgeView
    decreases cells.len(),
{
    if cells.len() == 0 {
        b
    } else {
        spec_submit(spec_submit_all(b, cells.drop_last()), cells.last())
    }
}

/// Single-flight execution, for any number of submissions: the kernel
/// sees exactly the cells of the history, one at a time, in acquisition
/// order, and every client registered throughout holds their `queued`
/// updates in exactly that order after its earlier messages.
pub proof fn lemma_single_flight_sequence(b0: BridgeView, cells: Seq<CellView>, i: int)
    requires
        0 <= i < b0.registry.clients.len(),
    ensures
        spec_submit_all(b0, cells).submitted == b0.submitted + cells,
        spec_submit_all(b0, cells).registry.clients.len() == b0.registry.clients.len(),
        spec_submit_all(b0, cells).registry.clients[i].id == b0.registry.clients[i].id,
        spec_submit_all(b0, cells).registry.clients[i].outbound
            == b0.registry.clients[i].outbound + cells.map_values(
            |c: CellView| OutboundView::Update(spec_queued(c)),
        ),
    decreases cells.len(),
{
    let queued_of = |c: CellView| OutboundView::Update(spec_queued(c));
    if cells.len() == 0 {
        assert(b0.submitted + cells =~= b0.submitted);
        assert(b0.registry.clients[i].outbound + cells.map_values(queued_of)
            =~= b0.registry.clients[i].outbound);
    } else {
        let head = cells.drop_last();
        let mid = spec_submit_all(b0, head);
        lemma_single_flight_sequence(b0, head, i);
        assert(spec_submit_all(b0, cells) == spec_submit(mid, cells.last()));
        assert(spec_submit(mid, cells.last()).submitted =~= b0.submitted + cells);
        assert(spec_submit(mid, cells.last()).registry.clients[i].outbound
            == mid.registry.clients[i].outbound.push(queued_of(cells.last())));
        assert(cells.map_values(queued_of)
            =~= head.map_values(queued_of).push(queued_of(cells.last())));
        assert(spec_submit(mid, cells.last()).registry.clients[i].outbound
            =~= b0.registry.clients[i].outbound + cells.map_values(queued_of));
    }
}

/// Attribution correctness: once a cell is submitted, every update the
/// bridge broadcasts for a kernel event carries that cell's id, until
/// the next submission replaces the current cell.
pub proof fn lemma_bridge_attribution(b: BridgeView, cell: CellView, ev: EventView)
    ensures
        spec_normalize(spec_submit(b, cell).last, ev) matches Some(u) ==> u.id == cell.id,
{
}

} // verus!
