//! The `add_numbers` activity as a step machine. The activity announces that
//! it has claimed the task, then for each of five steps waits a second, sends
//! a heartbeat and signals its progress to the parent workflow, and finally
//! returns the sum. The library decides each next action; the worker performs
//! it (the sleep, the heartbeat, the signal) and asks for the next one.
use vstd::prelude::*;

use crate::shared::{AddInput, AddResult, AddResultView, ProgressSignal, ProgressSignalView};

verus! {

/// Number of progress steps of one activity run.
pub const ACTIVITY_STEPS: u32 = 5;

/// Seconds that the activity waits before each step's heartbeat.
pub const STEP_DELAY_SECS: u64 = 1;

/// The activities registered on the task queue. It holds no state: the worker
/// identity and the client live in the worker process's globals.
pub struct AddActivities;

/// What the worker does next for a running activity.
#[derive(Debug)]
pub enum ActivityAction {
    /// Signal this progress to the parent workflow.
    Signal(ProgressSignal),
    /// Wait this many seconds.
    Sleep { secs: u64 },
    /// Tell the orchestrator that the activity is still alive.
    Heartbeat,
    /// Finish the activity with this result.
    Complete(AddResult),
}

/// The model of an [`ActivityAction`].
pub enum ActivityActionView {
    Signal(ProgressSignalView),
    Sleep(u64),
    Heartbeat,
    Complete(AddResultView),
}

impl View for ActivityAction {
    type V = ActivityActionView;

    open spec fn view(&self) -> ActivityActionView {
        match self {
            ActivityAction::Signal(s) => ActivityActionView::Signal(s@),
            ActivityAction::Sleep { secs } => ActivityActionView::Sleep(*secs),
            ActivityAction::Heartbeat => ActivityActionView::Heartbeat,
            ActivityAction::Complete(r) => ActivityActionView::Complete(r@),
        }
    }
}

/// Number of actions in one run: the claim announcement, three per step, and
/// the completion.
pub open spec fn script_len() -> nat {
    3 * (ACTIVITY_STEPS as nat) + 2
}

/// The `i`-th action of a run on `input` by worker `worker_id`.
pub open spec fn script_action(input: AddInput, worker_id: Seq<char>, i: nat) -> ActivityActionView {
    if i == 0 {
        ActivityActionView::Signal(ProgressSignalView { worker_id, current: 0, total: ACTIVITY_STEPS })
    } else if i == script_len() - 1 {
        ActivityActionView::Complete(AddResultView { sum: (input.x + input.y) as i64, worker_id })
    } else if i % 3 == 1 {
        ActivityActionView::Sleep(STEP_DELAY_SECS)
    } else if i % 3 == 2 {
        ActivityActionView::Heartbeat
    } else {
        ActivityActionView::Signal(
            ProgressSignalView { worker_id, current: (i / 3) as u32, total: ACTIVITY_STEPS },
        )
    }
}

/// `x + y` fits in an `i64` (the activity's addition does not overflow).
pub open spec fn sum_fits(input: AddInput) -> bool {
    i64::MIN <= input.x + input.y <= i64::MAX
}

/// One run of `add_numbers`: its input, the worker running it, and how many
/// of its actions have been handed out.
pub struct AddRun {
    input: AddInput,
    worker_id: String,
    done: u32,
}

impl AddRun {
    /// The input of the run.
    pub closed spec fn input(&self) -> AddInput {
        self.input
    }

    /// The identity of the worker running it.
    pub closed spec fn worker(&self) -> Seq<char> {
        self.worker_id@
    }

    /// How many actions have been handed out.
    pub closed spec fn handed_out(&self) -> nat {
        self.done as nat
    }

    /// Well-formedness: the count stays within the script, and the sum fits.
    pub closed spec fn wf(&self) -> bool {
        &&& self.done as nat <= script_len()
        &&& sum_fits(self.input)
    }

    /// Whether every action, the completion included, has been handed out.
    pub fn is_finished(&self) -> (r: bool)
        ensures
            r == (self.handed_out() == script_len()),
            r == (self.handed_out() == 17),
    {
        self.done == 3 * ACTIVITY_STEPS + 2
    }

    /// The next action of the run.
    pub fn advance(&mut self) -> (a: ActivityAction)
        requires
            old(self).wf(),
            old(self).handed_out() < script_len(),
        ensures
            final(self).wf(),
            final(self).input() == old(self).input(),
            final(self).worker() == old(self).worker(),
            final(self).handed_out() == old(self).handed_out() + 1,
            a@ == script_action(old(self).input(), old(self).worker(), old(self).handed_out()),
            old(self).handed_out() == 0 ==> a@ == ActivityActionView::Signal(
                ProgressSignalView { worker_id: old(self).worker(), current: 0, total: 5 },
            ),
            (a@ is Complete) <==> old(self).handed_out() == 16,
            a@ is Complete ==> a@ == ActivityActionView::Complete(
                AddResultView {
                    sum: (old(self).input().x + old(self).input().y) as i64,
                    worker_id: old(self).worker(),
                },
            ),
            0 < old(self).handed_out() < 16 && old(self).handed_out() % 3 == 1 ==> a@
                == ActivityActionView::Sleep(1),
            0 < old(self).handed_out() < 16 && old(self).handed_out() % 3 == 2 ==> a@
                == ActivityActionView::Heartbeat,
            0 < old(self).handed_out() < 16 && old(self).handed_out() % 3 == 0 ==> a@
                == ActivityActionView::Signal(
                ProgressSignalView {
                    worker_id: old(self).worker(),
                    current: (old(self).handed_out() / 3) as u32,
                    total: 5,
                },
            ),
    {
        let i = self.done;
        self.done = i + 1;
        if i == 0 {
            ActivityAction::Signal(
                ProgressSignal { worker_id: self.worker_id.clone(), current: 0, total: ACTIVITY_STEPS },
            )
        } else if i == 3 * ACTIVITY_STEPS + 1 {
            ActivityAction::Complete(
                AddResult { sum: self.input.x + self.input.y, worker_id: self.worker_id.clone() },
            )
        } else if i % 3 == 1 {
            ActivityAction::Sleep { secs: STEP_DELAY_SECS }
        } else if i % 3 == 2 {
            ActivityAction::Heartbeat
        } else {
            ActivityAction::Signal(
                ProgressSignal { worker_id: self.worker_id.clone(), current: i / 3, total: ACTIVITY_STEPS },
            )
        }
    }
}

impl AddActivities {
    /// Starts `add_numbers` on `input` for the worker `worker_id`: the run and
    /// its first action, the announcement that the task is claimed (progress
    /// 0 of 5). `x + y` must fit in an `i64`, as the activity's addition
    /// requires.
    pub fn add_numbers(input: AddInput, worker_id: String) -> (r: (AddRun, ActivityAction))
        requires
            sum_fits(input),
        ensures
            r.0.wf(),
            r.0.input() == input,
            r.0.worker() == worker_id@,
            r.0.handed_out() == 1,
            r.1@ == script_action(input, worker_id@, 0),
            r.1@ == ActivityActionView::Signal(ProgressSignalView { worker_id: worker_id@, current: 0, total: 5 }),
    {
        let mut run = AddRun { input, worker_id, done: 0 };
        let first = run.advance();
        (run, first)
    }
}

/// Law: the run ends by completing with `x + y`, reported by the worker that
/// ran it, and the action before that signals five of five steps done.
pub proof fn law_run_completes_with_sum(input: AddInput, worker_id: Seq<char>)
    requires
        sum_fits(input),
    ensures
        script_action(input, worker_id, (script_len() - 1) as nat) == ActivityActionView::Complete(
            AddResultView { sum: (input.x + input.y) as i64, worker_id },
        ),
        script_action(input, worker_id, (script_len() - 2) as nat) == ActivityActionView::Signal(
            ProgressSignalView { worker_id, current: ACTIVITY_STEPS, total: ACTIVITY_STEPS },
        ),
{
}

/// Law: each step `s` of the five is a one-second wait, then a heartbeat, then
/// the signal of progress `s` of 5.
pub proof fn law_step_shape(input: AddInput, worker_id: Seq<char>, s: nat)
    requires
        1 <= s <= ACTIVITY_STEPS,
    ensures
        script_action(input, worker_id, (3 * s - 2) as nat) == ActivityActionView::Sleep(STEP_DELAY_SECS),
        script_action(input, worker_id, (3 * s - 1) as nat) == ActivityActionView::Heartbeat,
        script_action(input, worker_id, 3 * s) == ActivityActionView::Signal(
            ProgressSignalView { worker_id, current: s as u32, total: ACTIVITY_STEPS },
        ),
{
}

/// Law: the progress that a run signals strictly increases, always out of a
/// total of five, and every signal and the result name the worker that ran
/// it.
pub proof fn law_progress_increases(input: AddInput, worker_id: Seq<char>, i: nat, j: nat)
    requires
        i < j < script_len(),
        script_action(input, worker_id, i) is Signal,
        script_action(input, worker_id, j) is Signal,
    ensures
        script_action(input, worker_id, i)->Signal_0.current < script_action(input, worker_id, j)->Signal_0.current,
        script_action(input, worker_id, i)->Signal_0.total == ACTIVITY_STEPS,
        script_action(input, worker_id, i)->Signal_0.worker_id == worker_id,
{
}

/// Law: a run hands out seventeen actions, and its first one announces the
/// claim: progress 0 of 5 from the running worker.
pub proof fn law_first_action_is_claim(input: AddInput, worker_id: Seq<char>)
    ensures
        script_len() == 17,
        script_action(input, worker_id, 0) == ActivityActionView::Signal(
            ProgressSignalView { worker_id, current: 0, total: 5 },
        ),
{
}

/// Law: only the last action of a run completes it, and every completion
/// carries `x + y` and the running worker.
pub proof fn law_only_last_action_completes(input: AddInput, worker_id: Seq<char>, i: nat)
    requires
        i < script_len(),
    ensures
        (script_action(input, worker_id, i) is Complete) <==> i == script_len() - 1,
        script_action(input, worker_id, i) is Complete ==> script_action(input, worker_id, i)
            == ActivityActionView::Complete(AddResultView { sum: (input.x + input.y) as i64, worker_id }),
{
}

} // verus!
