//! The kernel connection's shared submission slot. The three protocol
//! channels themselves are I/O and live outside the library; what the
//! library owns is the `last_run_cell` slot that the event normalizer
//! reads, and the mapping from a shell reply to the submission's result.

use vstd::prelude::*;

use crate::models::{KernelError, KernelUpdate, RunCell};
use crate::models::CellView;

verus! {

/// The library's state of one kernel connection: the cell most recently
/// recorded by a submission, read by the event normalizer to attribute
/// events. `None` until the first submission.
pub struct KernelConnection {
    pub last_run_cell: Option<RunCell>,
}

impl View for KernelConnection {
    type V = Option<CellView>;

    open spec fn view(&self) -> Option<CellView> {
        self.last_run_cell.deep_view()
    }
}

/// The outcome of opening the three channels against a descriptor file:
/// a fresh connection if the file was present and well-formed, else
/// a connect error.
pub fn connect_outcome(descriptor_ok: bool) -> (r: Result<KernelConnection, KernelError>)
    ensures
        descriptor_ok ==> (r matches Ok(c) && c@ is None),
        !descriptor_ok ==> r == Err::<KernelConnection, KernelError>(KernelError::Connect),
{
    if descriptor_ok {
        Ok(KernelConnection { last_run_cell: None })
    } else {
        Err(KernelError::Connect)
    }
}

impl KernelConnection {
    /// A connection with no submission recorded yet.
    pub fn new() -> (r: KernelConnection)
        ensures
            r@ is None,
    {
        KernelConnection { last_run_cell: None }
    }

    /// Records `cell` as the most recently submitted cell, before its
    /// execute request is sent on the shell channel. Every event the
    /// normalizer handles from now until the next recording is
    /// attributed to `cell`.
    pub fn record_submission(&mut self, cell: RunCell)
        ensures
            final(self)@ == Some(cell@),
    {
        self.last_run_cell = Some(cell);
    }

    /// The submission's result, from what the shell channel handed back:
    /// the kernel-assigned execution counter if an execute reply came,
    /// else an execution error — which the caller surfaces to clients as
    /// an error update, never as a crash of the session.
    pub fn complete_submission(&self, reply: Option<i64>) -> (r: Result<i64, KernelError>)
        ensures
            reply matches Some(n) ==> r == Ok::<i64, KernelError>(n),
            reply is None ==> r == Err::<i64, KernelError>(KernelError::Execution),
    {
        match reply {
            Some(n) => Ok(n),
            None => Err(KernelError::Execution),
        }
    }
}

/// What the heartbeat watcher reports: nothing while pulses keep
/// arriving inside the liveness window; a shutting-down status once the
/// window passes without one, so the kernel's death is detected and
/// reported rather than ignored.
pub fn liveness_update(pulse_in_window: bool) -> (r: Option<KernelUpdate>)
    ensures
        pulse_in_window ==> r is None,
        !pulse_in_window ==> (r matches Some(k) && k@ == "shuttingdown"@),
{
    if pulse_in_window {
        None
    } else {
        Some(KernelUpdate { status: "shuttingdown".to_owned() })
    }
}

} // verus!
