//! Kernel process lifecycle: which kernels can be launched, how a launch
//! is planned (command, arguments, fresh descriptor file path), and the
//! shutdown state machine, which is idempotent.
//!
//! Spawning, killing and waiting on the operating-system process are I/O
//! and live outside the library; this module decides what to run and what
//! a shutdown must still do.

use vstd::prelude::*;

use crate::models::KernelError;

verus! {

/// How to launch a kernel process: an executable and its arguments.
#[derive(Clone, Debug)]
pub struct KernelSpec {
    pub cmd: String,
    pub args: Vec<String>,
}

/// Mathematical view of a [`KernelSpec`].
#[verifier::ext_equal]
pub ghost struct KernelSpecView {
    pub cmd: Seq<char>,
    pub args: Seq<Seq<char>>,
}

impl View for KernelSpec {
    type V = KernelSpecView;

    open spec fn view(&self) -> KernelSpecView {
        KernelSpecView { cmd: self.cmd@, args: self.args.deep_view() }
    }
}

impl DeepView for KernelSpec {
    type V = KernelSpecView;

    open spec fn deep_view(&self) -> KernelSpecView {
        self@
    }
}

impl KernelSpec {
    /// The kernels this server knows how to launch: exactly one, an
    /// `ipython` kernel told to write its connection descriptor to the
    /// file given as the argument after `-f`.
    pub fn get_available_kernels() -> (r: Result<Vec<KernelSpec>, KernelError>)
        ensures
            r is Ok,
            r->Ok_0.deep_view().len() == 1,
            r->Ok_0.deep_view()[0].cmd == "ipython"@,
            r->Ok_0.deep_view()[0].args.len() == 2,
            r->Ok_0.deep_view()[0].args[0] == "kernel"@,
            r->Ok_0.deep_view()[0].args[1] == "-f"@,
    {
        let args: Vec<String> = vec!["kernel".to_owned(), "-f".to_owned()];
        let spec = KernelSpec { cmd: "ipython".to_owned(), args };
        let kernels: Vec<KernelSpec> = vec![spec];
        assert(kernels.deep_view() =~= seq![kernels@[0].deep_view()]);
        Ok(kernels)
    }
}

/// Everything a launch needs: the descriptor file path, the executable,
/// and the argument list with the descriptor path appended last.
#[derive(Clone, Debug)]
pub struct LaunchPlan {
    pub file: String,
    pub cmd: String,
    pub args: Vec<String>,
}

/// Relies on `uuid::Uuid::new_v4` and its `Display` form: a fresh random
/// version-4 identifier rendered as 36 hyphenated lowercase hex
/// characters. The value is random, so nothing is claimed beyond its
/// length.
#[verifier::external_body]
fn fresh_token() -> (r: String)
    ensures
        r@.len() == 36,
{
    uuid::Uuid::new_v4().to_string()
}

/// The descriptor file path derived from a launch token.
pub fn descriptor_file_name(token: &str) -> (r: String)
    ensures
        r@ == "./kernel-"@ + token@ + ".json"@,
{
    let mut s: String = "./kernel-".to_owned();
    s.append(token);
    s.append(".json");
    s
}

/// The launch arguments: the spec's own arguments, then the descriptor
/// file path last.
pub fn launch_args(spec_args: &Vec<String>, file: &String) -> (r: Vec<String>)
    ensures
        r.deep_view() == spec_args.deep_view().push(file@),
{
    let mut r: Vec<String> = Vec::new();
    let mut i: usize = 0;
    while i < spec_args.len()
        invariant
            i <= spec_args.len(),
            r.deep_view() =~= spec_args.deep_view().subrange(0, i as int),
        decreases spec_args.len() - i,
    {
        let ghost prev = r.deep_view();
        let c = spec_args[i].clone();
        assert(c@ == spec_args.deep_view()[i as int]);
        r.push(c);
        i = i + 1;
        proof {
            assert(r.deep_view().len() == prev.len() + 1);
            assert(forall|j: int| 0 <= j < prev.len() ==> r.deep_view()[j] == prev[j]);
            assert(r.deep_view()[prev.len() as int] == spec_args.deep_view()[i - 1]);
            assert(r.deep_view() =~= spec_args.deep_view().subrange(0, i as int));
        }
    }
    assert(r.deep_view() =~= spec_args.deep_view());
    r.push(file.clone());
    assert(r.deep_view() =~= spec_args.deep_view().push(file@));
    r
}

/// A kernel handle: the spec it was launched from, the path of its
/// connection descriptor file, and whether process and descriptor file
/// are still live. At most one live process per handle.
#[derive(Debug)]
pub struct Kernel {
    pub spec: KernelSpec,
    pub file: String,
    running: bool,
}

/// Mathematical view of a [`Kernel`].
#[verifier::ext_equal]
pub ghost struct KernelView {
    pub spec: KernelSpecView,
    pub file: Seq<char>,
    pub running: bool,
}

impl View for Kernel {
    type V = KernelView;

    closed spec fn view(&self) -> KernelView {
        KernelView { spec: self.spec@, file: self.file@, running: self.is_running() }
    }
}

/// What one shutdown step leaves of a kernel, and whether the caller
/// must still kill the process and delete the descriptor file.
pub open spec fn spec_shutdown(k: KernelView) -> (KernelView, bool) {
    (KernelView { running: false, ..k }, k.running)
}

impl Kernel {
    /// Whether the handle still owns a live process and descriptor file.
    pub closed spec fn is_running(&self) -> bool {
        self.running
    }

    /// A handle over a process just spawned from `plan`: live, and owning
    /// the descriptor file of the plan.
    pub fn started(spec: KernelSpec, plan_file: String) -> (r: Kernel)
        ensures
            r@ == (KernelView { spec: spec@, file: plan_file@, running: true }),
    {
        Kernel { spec, file: plan_file, running: true }
    }

    /// One shutdown step. Returns whether the caller must now terminate
    /// the process and remove the descriptor file; on a handle already
    /// shut down it is a no-op and asks for nothing, so calling twice
    /// never errs and leaves no descriptor file behind.
    pub fn shutdown(&mut self) -> (r: bool)
        ensures
            (final(self)@, r) == spec_shutdown(old(self)@),
    {
        let was_running = self.running;
        self.running = false;
        was_running
    }
}

/// Shutting down twice is the same as shutting down once: the second
/// step changes nothing and asks the caller for no further action.
pub proof fn lemma_shutdown_idempotent(k: KernelView)
    ensures
        spec_shutdown(spec_shutdown(k).0).0 == spec_shutdown(k).0,
        !spec_shutdown(spec_shutdown(k).0).1,
{
}

/// The outcome of a launch attempt, from what the process layer saw:
/// whether the executable spawned, and whether the kernel signalled
/// readiness within the bounded wait.
pub fn launch_outcome(spawned: bool, ready: bool) -> (r: Result<(), KernelError>)
    ensures
        !spawned ==> r == Err::<(), KernelError>(KernelError::Launch),
        spawned && !ready ==> r == Err::<(), KernelError>(KernelError::ReadinessTimeout),
        spawned && ready ==> r == Ok::<(), KernelError>(()),
{
    if !spawned {
        Err(KernelError::Launch)
    } else if !ready {
        Err(KernelError::ReadinessTimeout)
    } else {
        Ok(())
    }
}

/// Plans a launch from a spec: a fresh, collision-resistant descriptor
/// file path (no two plans share one), the spec's command, and its
/// arguments with the descriptor path appended last.
pub fn plan_launch(spec: &KernelSpec) -> (r: LaunchPlan)
    ensures
        r.cmd@ == spec@.cmd,
        r.args.deep_view() == spec@.args.push(r.file@),
        r.file@.len() == 50,
        r.file@.subrange(0, 9) == "./kernel-"@,
        r.file@.subrange(45, 50) == ".json"@,
{
    let token = fresh_token();
    let file = descriptor_file_name(token.as_str());
    proof {
        reveal_strlit("./kernel-");
        reveal_strlit(".json");
        assert(file@.subrange(0, 9) =~= "./kernel-"@);
        assert(file@.subrange(45, 50) =~= ".json"@);
    }
    let args = launch_args(&spec.args, &file);
    LaunchPlan { cmd: spec.cmd.clone(), file, args }
}

} // verus!
