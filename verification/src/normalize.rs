//! The event normalizer: turns a raw kernel broadcast event, together
//! with the most recently submitted cell, into at most one cell update.
//!
//! Every update is attributed to the cell that was current when the
//! event was handled; while no cell has ever been submitted, every event
//! is suppressed. A `busy` status is always suppressed.

use vstd::prelude::*;

use crate::models::{RunCell, RunCellUpdate};
use crate::models::{CellView, UpdateView};

verus! {

/// The kernel's execution state as carried by a status event.
#[derive(Clone, Copy, Debug, PartialEq, Eq, Structural)]
pub enum ExecState {
    /// Running code.
    Busy,
    /// Doing nothing.
    Idle,
    /// Booting.
    Starting,
}

/// A raw kernel broadcast event, reduced to the values the normalizer
/// reads: emitted text, traceback lines, execution state, or
/// already-serialized result or display data.
#[derive(Clone, Debug)]
pub enum IoPubEvent {
    /// Something was written to stdout or stderr.
    Stream { text: String },
    /// Execution raised; the traceback comes as lines.
    ExecError { traceback: Vec<String> },
    /// The kernel's execution state changed.
    Status { state: ExecState },
    /// Echo of code the kernel begins to run.
    ExecuteInput,
    /// The execution's result, serialized.
    ExecuteResult { data: String },
    /// Display data, serialized.
    DisplayData { data: String },
    /// Any other broadcast event; always suppressed.
    Other,
}

/// Mathematical view of an [`IoPubEvent`].
#[verifier::ext_equal]
pub ghost enum EventView {
    Stream(Seq<char>),
    ExecError(Seq<Seq<char>>),
    Status(ExecState),
    ExecuteInput,
    ExecuteResult(Seq<char>),
    DisplayData(Seq<char>),
    Other,
}

impl View for IoPubEvent {
    type V = EventView;

    open spec fn view(&self) -> EventView {
        match self {
            IoPubEvent::Stream { text } => EventView::Stream(text@),
            IoPubEvent::ExecError { traceback } => EventView::ExecError(traceback.deep_view()),
            IoPubEvent::Status { state } => EventView::Status(*state),
            IoPubEvent::ExecuteInput => EventView::ExecuteInput,
            IoPubEvent::ExecuteResult { data } => EventView::ExecuteResult(data@),
            IoPubEvent::DisplayData { data } => EventView::DisplayData(data@),
            IoPubEvent::Other => EventView::Other,
        }
    }
}

/// Traceback lines joined with a newline between each two.
pub open spec fn spec_join_lines(lines: Seq<Seq<char>>) -> Seq<char>
    decreases lines.len(),
{
    if lines.len() == 0 {
        Seq::empty()
    } else if lines.len() == 1 {
        lines[0]
    } else {
        spec_join_lines(lines.drop_last()) + "\n"@ + lines.last()
    }
}

/// An update of kind `name` for cell `cell`, carrying `value`.
pub open spec fn spec_update(cell: CellView, name: Seq<char>, value: Seq<char>) -> UpdateView {
    UpdateView { id: cell.id, name, value }
}

/// The normalizer's whole mapping: which update, if any, a raw event
/// produces, given the most recently submitted cell.
pub open spec fn spec_normalize(last: Option<CellView>, ev: EventView) -> Option<UpdateView> {
    match last {
        None => None,
        Some(cell) => match ev {
            EventView::Stream(text) => Some(spec_update(cell, "output"@, text)),
            EventView::ExecError(tb) => Some(spec_update(cell, "error"@, spec_join_lines(tb))),
            EventView::Status(state) => match state {
                ExecState::Idle => Some(spec_update(cell, "complete"@, ""@)),
                _ => None,
            },
            EventView::ExecuteInput => Some(spec_update(cell, "running"@, "*"@)),
            EventView::ExecuteResult(data) => Some(spec_update(cell, "result"@, data)),
            EventView::DisplayData(data) => Some(spec_update(cell, "data"@, data)),
            EventView::Other => None,
        },
    }
}

/// Joins traceback lines with a newline between each two.
pub fn join_lines(lines: &Vec<String>) -> (r: String)
    ensures
        r@ == spec_join_lines(lines.deep_view()),
{
    let mut r: String = String::new();
    let mut i: usize = 0;
    while i < lines.len()
        invariant
            i <= lines.len(),
            r@ == spec_join_lines(lines.deep_view().subrange(0, i as int)),
        decreases lines.len() - i,
    {
        if i > 0 {
            r.append("\n");
        }
        r.append(lines[i].as_str());
        i = i + 1;
        proof {
            let pre = lines.deep_view().subrange(0, i - 1);
            let cur = lines.deep_view().subrange(0, i as int);
            assert(cur.drop_last() =~= pre);
            assert(cur.last() == lines.deep_view()[i - 1]);
            if i == 1 {
                assert(r@ =~= spec_join_lines(cur));
            } else {
                assert(r@ =~= spec_join_lines(pre) + "\n"@ + cur.last());
            }
        }
    }
    proof {
        assert(lines.deep_view().subrange(0, lines.deep_view().len() as int) =~= lines.deep_view());
    }
    r
}

/// Normalizes one raw broadcast event against the most recently
/// submitted cell. Returns exactly what the mapping table gives: no
/// update while no cell was ever submitted, no update for a `busy` or
/// unrecognized event, and otherwise the event's update attributed to
/// that cell.
pub fn normalize(last: &Option<RunCell>, ev: &IoPubEvent) -> (r: Option<RunCellUpdate>)
    ensures
        r.deep_view() == spec_normalize(last.deep_view(), ev@),
{
    let cell = match last {
        Some(c) => c,
        None => {
            return None;
        },
    };
    match ev {
        IoPubEvent::Stream { text } => Some(RunCellUpdate {
            id: cell.id.clone(),
            name: "output".to_owned(),
            value: text.clone(),
        }),
        IoPubEvent::ExecError { traceback } => Some(RunCellUpdate {
            id: cell.id.clone(),
            name: "error".to_owned(),
            value: join_lines(traceback),
        }),
        IoPubEvent::Status { state } => match state {
            ExecState::Idle => Some(RunCellUpdate {
                id: cell.id.clone(),
                name: "complete".to_owned(),
                value: "".to_owned(),
            }),
            _ => None,
        },
        IoPubEvent::ExecuteInput => Some(RunCellUpdate {
            id: cell.id.clone(),
            name: "running".to_owned(),
            value: "*".to_owned(),
        }),
        IoPubEvent::ExecuteResult { data } => Some(RunCellUpdate {
            id: cell.id.clone(),
            name: "result".to_owned(),
            value: data.clone(),
        }),
        IoPubEvent::DisplayData { data } => Some(RunCellUpdate {
            id: cell.id.clone(),
            name: "data".to_owned(),
            value: data.clone(),
        }),
        IoPubEvent::Other => None,
    }
}

/// Attribution correctness: whatever update the normalizer produces
/// while `cell` is the most recently submitted cell carries that cell's
/// id.
pub proof fn lemma_attribution(cell: CellView, ev: EventView)
    ensures
        spec_normalize(Some(cell), ev) matches Some(u) ==> u.id == cell.id,
{
}

/// Busy suppression: a raw `busy` status event never produces an
/// update, whatever cell is current.
pub proof fn lemma_busy_suppressed(last: Option<CellView>)
    ensures
        spec_normalize(last, EventView::Status(ExecState::Busy)) is None,
{
}

/// While no cell has ever been submitted, every event is suppressed.
pub proof fn lemma_no_cell_suppressed(ev: EventView)
    ensures
        spec_normalize(None, ev) is None,
{
}

} // verus!
