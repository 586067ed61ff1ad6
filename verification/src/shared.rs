//! Shared types and constants of the service, and the worker process's
//! set-once globals (its client and its identity).
use vstd::prelude::*;

verus! {

/// The task queue on which workers poll for workflow and activity tasks.
pub const TASK_QUEUE: &'static str = "math-task-queue";

/// The namespace in which workflows run.
pub const NAMESPACE: &'static str = "default";

/// The address of the orchestration server.
pub const TEMPORAL_SERVER: &'static str = "http://localhost:7233";

// ---------------------------------------------------------------------------
// Wire types
// ---------------------------------------------------------------------------

/// Input for the addition workflow.
#[derive(Clone, Copy, Debug)]
pub struct AddInput {
    pub x: i64,
    pub y: i64,
}

/// The activity (and workflow) return value.
#[derive(Debug)]
pub struct AddResult {
    pub sum: i64,
    pub worker_id: String,
}

/// The model of an [`AddResult`].
pub struct AddResultView {
    pub sum: i64,
    pub worker_id: Seq<char>,
}

impl View for AddResult {
    type V = AddResultView;

    open spec fn view(&self) -> AddResultView {
        AddResultView { sum: self.sum, worker_id: self.worker_id@ }
    }
}

impl Clone for AddResult {
    fn clone(&self) -> (r: Self)
        ensures
            r == *self,
    {
        AddResult { sum: self.sum, worker_id: self.worker_id.clone() }
    }
}

/// Progress update sent by the activity as a workflow signal.
#[derive(Debug)]
pub struct ProgressSignal {
    pub worker_id: String,
    pub current: u32,
    pub total: u32,
}

/// The model of a [`ProgressSignal`].
pub struct ProgressSignalView {
    pub worker_id: Seq<char>,
    pub current: u32,
    pub total: u32,
}

impl View for ProgressSignal {
    type V = ProgressSignalView;

    open spec fn view(&self) -> ProgressSignalView {
        ProgressSignalView { worker_id: self.worker_id@, current: self.current, total: self.total }
    }
}

impl Clone for ProgressSignal {
    fn clone(&self) -> (r: Self)
        ensures
            r == *self,
    {
        ProgressSignal { worker_id: self.worker_id.clone(), current: self.current, total: self.total }
    }
}

/// Progress snapshot stored in the workflow state.
#[derive(Clone, Copy, Debug)]
pub struct Progress {
    pub current: u32,
    pub total: u32,
}

/// What the workflow query handler returns (read by the API server).
#[derive(Debug)]
pub struct WorkflowStatus {
    pub worker_id: Option<String>,
    pub progress: Option<Progress>,
}

/// The model of a [`WorkflowStatus`].
pub struct WorkflowStatusView {
    pub worker_id: Option<Seq<char>>,
    pub progress: Option<Progress>,
}

impl View for WorkflowStatus {
    type V = WorkflowStatusView;

    open spec fn view(&self) -> WorkflowStatusView {
        WorkflowStatusView { worker_id: opt_text(self.worker_id), progress: self.progress }
    }
}

/// The characters of an optional string.
pub open spec fn opt_text(s: Option<String>) -> Option<Seq<char>> {
    match s {
        Some(t) => Some(t@),
        None => None,
    }
}

/// A copy of an optional string.
pub fn clone_opt_text(s: &Option<String>) -> (r: Option<String>)
    ensures
        r == *s,
{
    match s {
        Some(t) => Some(t.clone()),
        None => None,
    }
}

impl Clone for WorkflowStatus {
    fn clone(&self) -> (r: Self)
        ensures
            r == *self,
    {
        WorkflowStatus { worker_id: clone_opt_text(&self.worker_id), progress: self.progress }
    }
}

// ---------------------------------------------------------------------------
// Set-once globals of a worker process
// ---------------------------------------------------------------------------

/// The worker process's globals: the client that activities use to signal
/// their workflow, and the worker's human-readable identity. Each is set at
/// most once; a later attempt to set it leaves the first value in place.
pub struct WorkerGlobals<C> {
    client: Option<C>,
    worker_id: Option<String>,
}

impl<C> WorkerGlobals<C> {
    /// The client slot.
    pub closed spec fn client_slot(&self) -> Option<C> {
        self.client
    }

    /// The identity slot.
    pub closed spec fn worker_id_slot(&self) -> Option<Seq<char>> {
        opt_text(self.worker_id)
    }

    /// Globals with neither slot set.
    pub fn new() -> (g: Self)
        ensures
            g.client_slot() is None,
            g.worker_id_slot() is None,
    {
        WorkerGlobals { client: None, worker_id: None }
    }
}

/// What a slot holds after an attempt to set it to `v`: the first value
/// stays.
pub open spec fn set_once<T>(slot: Option<T>, v: T) -> Option<T> {
    match slot {
        Some(first) => Some(first),
        None => Some(v),
    }
}

/// What `global_worker_id` answers for an identity slot.
pub open spec fn worker_id_or_unknown(slot: Option<Seq<char>>) -> Seq<char> {
    match slot {
        Some(w) => w,
        None => "unknown"@,
    }
}

/// Stores the client and the worker's identity, each only where it is not
/// yet set (a repeated call changes nothing).
pub fn init_globals<C>(globals: &mut WorkerGlobals<C>, client: C, worker_id: String)
    ensures
        final(globals).client_slot() == set_once(old(globals).client_slot(), client),
        final(globals).worker_id_slot() == set_once(old(globals).worker_id_slot(), worker_id@),
        old(globals).client_slot() is None ==> final(globals).client_slot() == Some(client),
        old(globals).client_slot() is Some ==> final(globals).client_slot() == old(globals).client_slot(),
        old(globals).worker_id_slot() is None ==> final(globals).worker_id_slot() == Some(worker_id@),
        old(globals).worker_id_slot() is Some ==> final(globals).worker_id_slot() == old(globals).worker_id_slot(),
{
    if globals.client.is_none() {
        globals.client = Some(client);
    }
    if globals.worker_id.is_none() {
        globals.worker_id = Some(worker_id);
    }
}

/// The client, if one was stored.
pub fn global_client<C>(globals: &WorkerGlobals<C>) -> (r: Option<&C>)
    ensures
        r is None <==> globals.client_slot() is None,
        r matches Some(c) ==> globals.client_slot() == Some(*c),
{
    globals.client.as_ref()
}

/// The worker's identity, or `"unknown"` before it was stored.
pub fn global_worker_id<C>(globals: &WorkerGlobals<C>) -> (r: &str)
    ensures
        r@ == worker_id_or_unknown(globals.worker_id_slot()),
        globals.worker_id_slot() matches Some(w) ==> r@ == w,
        globals.worker_id_slot() is None ==> r@ == "unknown"@,
{
    match &globals.worker_id {
        Some(w) => w.as_str(),
        None => {
            let u = "unknown";
            proof {
                reveal_strlit("unknown");
            }
            u
        },
    }
}

/// Law: the first `init_globals` on fresh globals decides what
/// `global_worker_id` and `global_client` give back, and every later
/// `init_globals` leaves both unchanged.
pub proof fn law_first_init_wins<C>(c1: C, w1: Seq<char>, c2: C, w2: Seq<char>)
    ensures
        worker_id_or_unknown(set_once(set_once(None, w1), w2)) == w1,
        set_once(set_once(None, c1), c2) == Some(c1),
{
}

/// Law: before any `init_globals`, the identity reads as `"unknown"`.
pub proof fn law_unset_identity_is_unknown()
    ensures
        worker_id_or_unknown(None) == "unknown"@,
{
}

} // verus!
