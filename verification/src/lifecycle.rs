//! Laws that join the workflow, the activity and the API server: what a
//! poll answers at each point of a workflow's life.
use vstd::prelude::*;

use crate::activity::{script_action, script_len, sum_fits, ACTIVITY_STEPS};
use crate::api::{
    finished_reply_view, poll_step_view, query_reply_view, report, HttpReplyView, PollActionView, PollEvent,
    PollPhase, STATUS_OK,
};
use crate::shared::{AddInput, Progress, ProgressSignalView};
use crate::workflow::{after_signal, status_of, AddWorkflowView};

verus! {

/// Law (PENDING): a workflow that no worker has claimed yet is answered as
/// PENDING, with no worker, progress, result or error.
pub proof fn law_unclaimed_workflow_is_pending(input: AddInput)
    ensures
        query_reply_view(Ok(status_of(AddWorkflowView { x: input.x, y: input.y, worker_id: None, progress: None })))
            == (HttpReplyView { status: STATUS_OK, body: report(PollPhase::Pending, None, None, None, None) }),
{
}

/// Law (RUNNING): once a progress signal has reached an open workflow, a
/// poll answers RUNNING with that signal's worker and progress.
pub proof fn law_signalled_workflow_is_running(w: AddWorkflowView, update: ProgressSignalView)
    ensures
        query_reply_view(Ok(status_of(after_signal(w, update)))) == (HttpReplyView {
            status: STATUS_OK,
            body: report(
                PollPhase::Running,
                Some(update.worker_id),
                Some(Progress { current: update.current, total: update.total }),
                None,
                None,
            ),
        }),
{
}

/// Law (RUNNING, live progress): each progress signal of an activity run,
/// delivered to its workflow, makes a poll answer RUNNING with the run's
/// worker and the step reached, out of five.
pub proof fn law_activity_progress_is_polled(input: AddInput, worker_id: Seq<char>, i: nat, w: AddWorkflowView)
    requires
        i < script_len(),
        script_action(input, worker_id, i) is Signal,
    ensures
        query_reply_view(Ok(status_of(after_signal(w, script_action(input, worker_id, i)->Signal_0))))
            == (HttpReplyView {
            status: STATUS_OK,
            body: report(
                PollPhase::Running,
                Some(worker_id),
                Some(Progress { current: (i / 3) as u32, total: ACTIVITY_STEPS }),
                None,
                None,
            ),
        }),
{
}

/// Law (COMPLETED): when a run's completion becomes the workflow's result, a
/// poll of the closed workflow answers COMPLETED with `x + y`, the run's
/// worker, and progress five of five.
pub proof fn law_completed_run_is_reported(input: AddInput, worker_id: Seq<char>)
    requires
        sum_fits(input),
    ensures
        script_action(input, worker_id, (script_len() - 1) as nat) is Complete,
        finished_reply_view(Ok(script_action(input, worker_id, (script_len() - 1) as nat)->Complete_0))
            == (HttpReplyView {
            status: STATUS_OK,
            body: report(
                PollPhase::Completed,
                Some(worker_id),
                Some(Progress { current: ACTIVITY_STEPS, total: ACTIVITY_STEPS }),
                Some((input.x + input.y) as i64),
                None,
            ),
        }),
{
}

/// Law (FAILED): a closed workflow whose result is an error is answered as
/// FAILED with that error and status 200.
pub proof fn law_failed_workflow_is_reported(error: Seq<char>)
    ensures
        finished_reply_view(Err(error)) == (HttpReplyView {
            status: STATUS_OK,
            body: report(PollPhase::Failed, None, None, None, Some(error)),
        }),
{
}

/// Law: a described workflow is queried while open and its result fetched
/// once closed; it is never answered before one of those.
pub proof fn law_poll_routes_by_closedness(closed: bool)
    ensures
        poll_step_view(PollEvent::Described { closed }) == (if closed {
            PollActionView::FetchResult
        } else {
            PollActionView::QueryStatus
        }),
{
}

} // verus!
