//! The addition workflow: it schedules the `add_numbers` activity, stores the
//! progress that the activity signals, and answers status queries from that
//! stored state.
use vstd::prelude::*;

use crate::shared::{opt_text, clone_opt_text, AddInput, Progress, ProgressSignal, ProgressSignalView, WorkflowStatus, WorkflowStatusView};

verus! {

/// How long the activity may run once started, in seconds.
pub const ACTIVITY_START_TO_CLOSE_SECS: u64 = 120;

/// The durable state of one addition workflow.
pub struct AddWorkflow {
    /// The inputs, kept for the activity that the workflow schedules.
    x: i64,
    y: i64,
    /// Set by the first progress signal (identifies which worker claimed the task).
    worker_id: Option<String>,
    /// Updated by every progress signal.
    progress: Option<Progress>,
}

/// The model of an [`AddWorkflow`].
pub struct AddWorkflowView {
    pub x: i64,
    pub y: i64,
    pub worker_id: Option<Seq<char>>,
    pub progress: Option<Progress>,
}

impl View for AddWorkflow {
    type V = AddWorkflowView;

    closed spec fn view(&self) -> AddWorkflowView {
        AddWorkflowView {
            x: self.x,
            y: self.y,
            worker_id: opt_text(self.worker_id),
            progress: self.progress,
        }
    }
}

/// What the workflow asks the orchestrator to run: the activity's input and
/// its start-to-close timeout.
#[derive(Clone, Copy, Debug)]
pub struct ActivityRequest {
    pub input: AddInput,
    pub start_to_close_secs: u64,
}

/// The workflow state that a progress signal leaves behind.
pub open spec fn after_signal(w: AddWorkflowView, update: ProgressSignalView) -> AddWorkflowView {
    AddWorkflowView {
        x: w.x,
        y: w.y,
        worker_id: Some(update.worker_id),
        progress: Some(Progress { current: update.current, total: update.total }),
    }
}

/// The input with which a workflow in this state schedules its activity.
pub open spec fn scheduled_input(w: AddWorkflowView) -> AddInput {
    AddInput { x: w.x, y: w.y }
}

/// The status that a query reads from a workflow state.
pub open spec fn status_of(w: AddWorkflowView) -> WorkflowStatusView {
    WorkflowStatusView { worker_id: w.worker_id, progress: w.progress }
}

impl AddWorkflow {
    /// The state of a workflow that has just been started with `input`: no
    /// worker has claimed it and no progress is known.
    pub fn new(input: AddInput) -> (w: Self)
        ensures
            w@ == (AddWorkflowView { x: input.x, y: input.y, worker_id: None, progress: None }),
    {
        AddWorkflow { x: input.x, y: input.y, worker_id: None, progress: None }
    }

    /// The workflow's one decision: schedule `add_numbers` on the stored
    /// inputs, with a 120-second start-to-close timeout. The workflow then
    /// completes with the activity's result as it stands.
    pub fn run(&self) -> (req: ActivityRequest)
        ensures
            req.input == scheduled_input(self@),
            req.input.x == self@.x,
            req.input.y == self@.y,
            req.start_to_close_secs == ACTIVITY_START_TO_CLOSE_SECS,
            req.start_to_close_secs == 120,
    {
        ActivityRequest {
            input: AddInput { x: self.x, y: self.y },
            start_to_close_secs: ACTIVITY_START_TO_CLOSE_SECS,
        }
    }

    /// Signal handler: records the reporting worker and its progress.
    pub fn progress_update(&mut self, update: ProgressSignal)
        ensures
            final(self)@ == after_signal(old(self)@, update@),
            final(self)@.worker_id == Some(update.worker_id@),
            final(self)@.progress == Some(Progress { current: update.current, total: update.total }),
            final(self)@.x == old(self)@.x,
            final(self)@.y == old(self)@.y,
    {
        self.worker_id = Some(update.worker_id);
        self.progress = Some(Progress { current: update.current, total: update.total });
    }

    /// Query handler: the stored worker identity and progress.
    pub fn get_status(&self) -> (s: WorkflowStatus)
        ensures
            s@ == status_of(self@),
            s@.worker_id == self@.worker_id,
            s@.progress == self@.progress,
    {
        WorkflowStatus { worker_id: clone_opt_text(&self.worker_id), progress: self.progress }
    }
}

/// Law: a query answers what the last progress signal reported, whatever the
/// state before it.
pub proof fn law_query_reads_last_signal(w: AddWorkflowView, update: ProgressSignalView)
    ensures
        status_of(after_signal(w, update)) == (WorkflowStatusView {
            worker_id: Some(update.worker_id),
            progress: Some(Progress { current: update.current, total: update.total }),
        }),
{
}

/// Law: signals never change the input with which the workflow schedules its
/// activity.
pub proof fn law_signals_keep_inputs(w: AddWorkflowView, update: ProgressSignalView)
    ensures
        scheduled_input(after_signal(w, update)) == scheduled_input(w),
{
}

/// Law: a workflow started with `input` schedules its activity with that
/// same input.
pub proof fn law_schedules_its_input(input: AddInput)
    ensures
        scheduled_input(AddWorkflowView { x: input.x, y: input.y, worker_id: None, progress: None }) == input,
{
}

/// Law: a workflow that has received no signal answers a query with no worker
/// and no progress.
pub proof fn law_fresh_status_is_empty(x: i64, y: i64)
    ensures
        status_of(AddWorkflowView { x, y, worker_id: None, progress: None })
            == (WorkflowStatusView { worker_id: None, progress: None }),
{
}

} // verus!
