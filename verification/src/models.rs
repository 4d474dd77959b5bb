//! Plain data carried between clients, the kernel bridge, and the
//! file-browsing handlers, together with their mathematical views.

use vstd::prelude::*;

verus! {

/// One unit of code submitted by a client: an identifier chosen by the
/// client and the code to run. Immutable once submitted.
#[derive(Clone, Debug)]
pub struct RunCell {
    pub id: String,
    pub value: String,
}

/// Mathematical view of a [`RunCell`].
#[verifier::ext_equal]
pub ghost struct CellView {
    pub id: Seq<char>,
    pub value: Seq<char>,
}

impl View for RunCell {
    type V = CellView;

    open spec fn view(&self) -> CellView {
        CellView { id: self.id@, value: self.value@ }
    }
}

impl DeepView for RunCell {
    type V = CellView;

    open spec fn deep_view(&self) -> CellView {
        self@
    }
}

impl RunCell {
    /// A copy of this cell whose fields read the same.
    pub fn duplicate(&self) -> (r: RunCell)
        ensures
            r@ == self@,
    {
        RunCell { id: self.id.clone(), value: self.value.clone() }
    }
}

/// One lifecycle event of a submitted cell, as sent to clients:
/// `id` is the cell the event belongs to, `name` the event kind
/// (`queued`, `running`, `output`, `error`, `result`, `data`,
/// `complete` or `count`), `value` its payload.
#[derive(Clone, Debug)]
pub struct RunCellUpdate {
    pub id: String,
    pub name: String,
    pub value: String,
}

/// Mathematical view of a [`RunCellUpdate`].
#[verifier::ext_equal]
pub ghost struct UpdateView {
    pub id: Seq<char>,
    pub name: Seq<char>,
    pub value: Seq<char>,
}

impl View for RunCellUpdate {
    type V = UpdateView;

    open spec fn view(&self) -> UpdateView {
        UpdateView { id: self.id@, name: self.name@, value: self.value@ }
    }
}

impl DeepView for RunCellUpdate {
    type V = UpdateView;

    open spec fn deep_view(&self) -> UpdateView {
        self@
    }
}

impl RunCellUpdate {
    /// A copy of this update whose fields read the same.
    pub fn duplicate(&self) -> (r: RunCellUpdate)
        ensures
            r@ == self@,
    {
        RunCellUpdate {
            id: self.id.clone(),
            name: self.name.clone(),
            value: self.value.clone(),
        }
    }
}

/// A kernel status transition, broadcast once per transition.
#[derive(Clone, Debug)]
pub struct KernelUpdate {
    pub status: String,
}

impl View for KernelUpdate {
    type V = Seq<char>;

    open spec fn view(&self) -> Seq<char> {
        self.status@
    }
}

impl DeepView for KernelUpdate {
    type V = Seq<char>;

    open spec fn deep_view(&self) -> Seq<char> {
        self@
    }
}

/// A file path relative to the configured root directory.
#[derive(Clone, Debug)]
pub struct NoteDAG {
    pub file_path: String,
}

/// A request to write `contents` to the file at `file_path`.
#[derive(Clone, Debug)]
pub struct NoteDAGWrite {
    pub file_path: String,
    pub contents: String,
}

/// One entry of a directory listing.
#[derive(Clone, Debug)]
pub struct ListItem {
    pub file_name: String,
    pub file_path: String,
    pub is_dir: bool,
    /// in bytes
    pub size: u64,
    /// milliseconds since the epoch
    pub modified: u128,
}

/// Options of a directory listing request.
#[derive(Clone, Debug)]
pub struct ListOptions {
    pub file_path: Option<String>,
}

/// What can go wrong in the kernel session bridge.
#[derive(Clone, Copy, Debug, PartialEq, Eq, Structural)]
pub enum KernelError {
    /// The kernel process could not be spawned.
    Launch,
    /// The kernel gave no readiness signal in time.
    ReadinessTimeout,
    /// The connection descriptor file is missing or malformed.
    Connect,
    /// A submission failed against the kernel.
    Execution,
    /// A malformed inbound client message; the message is dropped.
    ClientProtocol,
}

} // verus!
