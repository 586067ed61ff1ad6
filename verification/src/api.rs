//! The API server's decisions: the identifier of a new workflow, and the HTTP
//! status and body of each answer. The server performs the calls to the
//! orchestrator; each outcome is handed here and turned into a reply.
//!
//! Status model of a polled workflow:
//! PENDING (started, activity not yet claimed), RUNNING (a worker claimed it,
//! progress known), COMPLETED (sum and worker known), FAILED (workflow error).
use vstd::prelude::*;

use crate::activity::ACTIVITY_STEPS;
use crate::shared::{opt_text, AddResult, AddResultView, Progress, WorkflowStatus, WorkflowStatusView};
use crate::text::{
    chars_of, contains_text, lowercase, push_char, push_signed_decimal, push_text, signed_decimal,
    spec_to_lowercase, text_contains,
};

verus! {

/// HTTP 200.
pub const STATUS_OK: u16 = 200;

/// HTTP 404.
pub const STATUS_NOT_FOUND: u16 = 404;

/// HTTP 500.
pub const STATUS_INTERNAL_ERROR: u16 = 500;

/// The task-queue type under which activity pollers are listed.
pub const ACTIVITY_TASK_QUEUE_TYPE: i32 = 2;

// ---------------------------------------------------------------------------
// Replies
// ---------------------------------------------------------------------------

/// The phase of a polled workflow.
#[derive(Clone, Copy, Debug, PartialEq, Eq, Structural)]
pub enum PollPhase {
    Pending,
    Running,
    Completed,
    Failed,
}

/// The label of a phase on the wire.
pub open spec fn phase_label(p: PollPhase) -> Seq<char> {
    match p {
        PollPhase::Pending => "PENDING"@,
        PollPhase::Running => "RUNNING"@,
        PollPhase::Completed => "COMPLETED"@,
        PollPhase::Failed => "FAILED"@,
    }
}

impl PollPhase {
    /// The label of the phase on the wire.
    pub fn label(&self) -> (r: &'static str)
        ensures
            r@ == phase_label(*self),
            *self == PollPhase::Pending ==> r@ == "PENDING"@,
            *self == PollPhase::Running ==> r@ == "RUNNING"@,
            *self == PollPhase::Completed ==> r@ == "COMPLETED"@,
            *self == PollPhase::Failed ==> r@ == "FAILED"@,
    {
        match self {
            PollPhase::Pending => "PENDING",
            PollPhase::Running => "RUNNING",
            PollPhase::Completed => "COMPLETED",
            PollPhase::Failed => "FAILED",
        }
    }
}

/// The status report of a polled workflow.
#[derive(Debug)]
pub struct StatusReport {
    pub phase: PollPhase,
    pub worker_id: Option<String>,
    pub progress: Option<Progress>,
    pub result: Option<i64>,
    pub error: Option<String>,
}

/// The model of a [`StatusReport`].
pub struct StatusReportView {
    pub phase: PollPhase,
    pub worker_id: Option<Seq<char>>,
    pub progress: Option<Progress>,
    pub result: Option<i64>,
    pub error: Option<Seq<char>>,
}

impl View for StatusReport {
    type V = StatusReportView;

    open spec fn view(&self) -> StatusReportView {
        StatusReportView {
            phase: self.phase,
            worker_id: opt_text(self.worker_id),
            progress: self.progress,
            result: self.result,
            error: opt_text(self.error),
        }
    }
}

/// A worker that polls the activity task queue, and how long ago it last did.
#[derive(Debug)]
pub struct WorkerSeen {
    pub id: String,
    pub last_seen_secs_ago: i64,
}

/// The model of a [`WorkerSeen`].
pub struct WorkerSeenView {
    pub id: Seq<char>,
    pub last_seen_secs_ago: i64,
}

impl View for WorkerSeen {
    type V = WorkerSeenView;

    open spec fn view(&self) -> WorkerSeenView {
        WorkerSeenView { id: self.id@, last_seen_secs_ago: self.last_seen_secs_ago }
    }
}

/// A poller as the orchestrator lists it: its identity and, where known, the
/// time of its last access in seconds since the epoch.
#[derive(Debug)]
pub struct PollerSeen {
    pub identity: String,
    pub last_access_secs: Option<i64>,
}

/// The body of an answer.
#[derive(Debug)]
pub enum ReplyBody {
    /// `{"workflow_id": ..}`
    Started { workflow_id: String },
    /// `{"error": ..}`
    Failure { error: String },
    /// `{"status", "worker_id", "progress", "result", "error"}`
    Report(StatusReport),
    /// `{"workers": [{"id", "last_seen_secs_ago"}, ..]}`
    Workers(Vec<WorkerSeen>),
}

/// The model of a [`ReplyBody`].
pub enum ReplyBodyView {
    Started(Seq<char>),
    Failure(Seq<char>),
    Report(StatusReportView),
    Workers(Seq<WorkerSeenView>),
}

/// An answer: HTTP status and body.
#[derive(Debug)]
pub struct HttpReply {
    pub status: u16,
    pub body: ReplyBody,
}

/// The model of an [`HttpReply`].
pub struct HttpReplyView {
    pub status: u16,
    pub body: ReplyBodyView,
}

impl View for HttpReply {
    type V = HttpReplyView;

    open spec fn view(&self) -> HttpReplyView {
        HttpReplyView {
            status: self.status,
            body: match self.body {
                ReplyBody::Started { workflow_id } => ReplyBodyView::Started(workflow_id@),
                ReplyBody::Failure { error } => ReplyBodyView::Failure(error@),
                ReplyBody::Report(r) => ReplyBodyView::Report(r@),
                ReplyBody::Workers(ws) => ReplyBodyView::Workers(ws@.map_values(|w: WorkerSeen| w@)),
            },
        }
    }
}

/// The model of an outcome whose error is a message.
pub open spec fn outcome_view<T: View>(r: Result<T, String>) -> Result<T::V, Seq<char>> {
    match r {
        Ok(v) => Ok(v@),
        Err(e) => Err(e@),
    }
}

/// A report with only a phase, worker, progress, result and error given.
pub open spec fn report(
    phase: PollPhase,
    worker_id: Option<Seq<char>>,
    progress: Option<Progress>,
    result: Option<i64>,
    error: Option<Seq<char>>,
) -> ReplyBodyView {
    ReplyBodyView::Report(StatusReportView { phase, worker_id, progress, result, error })
}

// ---------------------------------------------------------------------------
// POST /calculate
// ---------------------------------------------------------------------------

/// A lower-case hexadecimal digit.
pub open spec fn is_lower_hex(c: char) -> bool {
    (48 <= c as u32 <= 57) || (97 <= c as u32 <= 102)
}

/// The hyphenated text form of a random (version 4) UUID, such as
/// `67e55044-10b1-426f-9247-bb680e5fe0c8`.
pub open spec fn is_v4_uuid_text(t: Seq<char>) -> bool {
    &&& t.len() == 36
    &&& forall|i: int|
        0 <= i < 36 ==> if i == 8 || i == 13 || i == 18 || i == 23 {
            t[i] == '-'
        } else {
            is_lower_hex(#[trigger] t[i])
        }
    &&& t[14] == '4'
    &&& (t[19] == '8' || t[19] == '9' || t[19] == 'a' || t[19] == 'b')
}

/// `uuid::Uuid::new_v4().to_string()`: a fresh random UUID in hyphenated
/// lower-case form. Each call may give another value; the contract states
/// only the form that every value has. (The call panics if the operating
/// system's random source fails.)
#[verifier::external_body]
fn random_uuid_text() -> (t: String)
    ensures
        is_v4_uuid_text(t@),
{
    uuid::Uuid::new_v4().to_string()
}

/// The identifier of the workflow started for `x + y`, with `token` the text
/// whose first eight characters make it unique.
pub open spec fn workflow_id_text(x: i64, y: i64, token: Seq<char>) -> Seq<char> {
    "add-"@ + signed_decimal(x as int) + "-"@ + signed_decimal(y as int) + "-"@ + token.take(8)
}

/// `add-{x}-{y}-{first eight characters of token}`. The token's first eight
/// characters must be ASCII (they are cut at the eighth byte).
pub fn workflow_id_from(x: i64, y: i64, token: &str) -> (id: String)
    requires
        8 <= token@.len(),
        forall|i: int| 0 <= i < 8 ==> (#[trigger] token@[i]) as u32 <= 127,
    ensures
        id@ == workflow_id_text(x, y, token@),
        id@ == "add-"@ + signed_decimal(x as int) + "-"@ + signed_decimal(y as int) + "-"@ + token@.take(8),
{
    let mut id = String::new();
    push_text(&mut id, "add-");
    push_signed_decimal(&mut id, x);
    push_char(&mut id, '-');
    push_signed_decimal(&mut id, y);
    push_char(&mut id, '-');
    let t = chars_of(token);
    let ghost head = id@;
    let mut i: usize = 0;
    while i < 8
        invariant
            t@ == token@,
            8 <= t.len(),
            i <= 8,
            id@ == head + token@.take(i as int),
        decreases 8 - i,
    {
        push_char(&mut id, t[i]);
        i = i + 1;
        assert(id@ =~= head + token@.take(i as int));
    }
    proof {
        reveal_strlit("add-");
        reveal_strlit("-");
        assert(id@ =~= workflow_id_text(x, y, token@));
    }
    id
}

/// A fresh identifier for the workflow that adds `x` and `y`:
/// `add-{x}-{y}-{eight random hexadecimal digits}`.
pub fn new_workflow_id(x: i64, y: i64) -> (id: String)
    ensures
        exists|token: Seq<char>| is_v4_uuid_text(token) && id@ == #[trigger] workflow_id_text(x, y, token),
{
    let token = random_uuid_text();
    assert forall|i: int| 0 <= i < 8 implies (#[trigger] token@[i]) as u32 <= 127 by {
        assert(is_lower_hex(token@[i]));
    }
    workflow_id_from(x, y, token.as_str())
}

/// The answer to `POST /calculate` once the start of workflow `workflow_id`
/// was attempted.
pub open spec fn calculate_reply_view(workflow_id: Seq<char>, started: Result<(), Seq<char>>) -> HttpReplyView {
    match started {
        Ok(()) => HttpReplyView { status: STATUS_OK, body: ReplyBodyView::Started(workflow_id) },
        Err(e) => HttpReplyView { status: STATUS_INTERNAL_ERROR, body: ReplyBodyView::Failure(e) },
    }
}

/// The answer to `POST /calculate`: 200 with the workflow's identifier when
/// it started, else 500 with the error.
pub fn calculate_reply(workflow_id: String, started: Result<(), String>) -> (r: HttpReply)
    ensures
        r@ == calculate_reply_view(workflow_id@, outcome_view(started)),
        started is Ok ==> r.status == 200 && r@.body == ReplyBodyView::Started(workflow_id@),
        started matches Err(e) ==> r.status == 500 && r@.body == ReplyBodyView::Failure(e@),
{
    match started {
        Ok(()) => HttpReply { status: STATUS_OK, body: ReplyBody::Started { workflow_id } },
        Err(e) => HttpReply { status: STATUS_INTERNAL_ERROR, body: ReplyBody::Failure { error: e } },
    }
}

// ---------------------------------------------------------------------------
// GET /result/{workflow_id}
// ---------------------------------------------------------------------------

/// The answer when describing the workflow failed with `message`, whose
/// lower-case form is `lowered`: 404 where that form mentions "not found",
/// else 500; the body carries the message.
pub open spec fn describe_failure_view(message: Seq<char>, lowered: Seq<char>) -> HttpReplyView {
    HttpReplyView {
        status: if contains_text(lowered, "not found"@) {
            STATUS_NOT_FOUND
        } else {
            STATUS_INTERNAL_ERROR
        },
        body: ReplyBodyView::Failure(message),
    }
}

/// The answer for a failed describe, given the message and its lower-case
/// form.
pub fn describe_failure_reply_lowered(message: String, lowered: &str) -> (r: HttpReply)
    ensures
        r@ == describe_failure_view(message@, lowered@),
        r.status == (if contains_text(lowered@, "not found"@) {
            404u16
        } else {
            500u16
        }),
        r@.body == ReplyBodyView::Failure(message@),
{
    let found = text_contains(lowered, "not found");
    let status = if found {
        STATUS_NOT_FOUND
    } else {
        STATUS_INTERNAL_ERROR
    };
    HttpReply { status, body: ReplyBody::Failure { error: message } }
}

/// The answer when describing the workflow failed with `message`: 404 where
/// the message, in lower case, mentions "not found", else 500.
pub fn describe_failure_reply(message: String) -> (r: HttpReply)
    ensures
        r@ == describe_failure_view(message@, spec_to_lowercase(message@)),
        r.status == (if contains_text(spec_to_lowercase(message@), "not found"@) {
            404u16
        } else {
            500u16
        }),
        r@.body == ReplyBodyView::Failure(message@),
{
    let lowered = lowercase(message.as_str());
    describe_failure_reply_lowered(message, lowered.as_str())
}

/// What `GET /result` answers after the status query of an open workflow
/// gave `queried`, field by field: PENDING while no worker is named, RUNNING
/// with the named worker and its progress, 500 with "query failed: ..." on an
/// error.
pub open spec fn answer_for_query(queried: Result<WorkflowStatus, String>) -> HttpReplyView {
    match queried {
        Ok(s) => match s.worker_id {
            None => HttpReplyView {
                status: 200,
                body: ReplyBodyView::Report(
                    StatusReportView {
                        phase: PollPhase::Pending,
                        worker_id: None,
                        progress: None,
                        result: None,
                        error: None,
                    },
                ),
            },
            Some(w) => HttpReplyView {
                status: 200,
                body: ReplyBodyView::Report(
                    StatusReportView {
                        phase: PollPhase::Running,
                        worker_id: Some(w@),
                        progress: s.progress,
                        result: None,
                        error: None,
                    },
                ),
            },
        },
        Err(e) => HttpReplyView { status: 500, body: ReplyBodyView::Failure("query failed: "@ + e@) },
    }
}

/// What `GET /result` answers for a closed workflow whose result is
/// `outcome`, field by field: COMPLETED with the sum, the worker and progress
/// 5 of 5, or FAILED with the error; both with status 200.
pub open spec fn answer_for_result(outcome: Result<AddResult, String>) -> HttpReplyView {
    match outcome {
        Ok(r) => HttpReplyView {
            status: 200,
            body: ReplyBodyView::Report(
                StatusReportView {
                    phase: PollPhase::Completed,
                    worker_id: Some(r.worker_id@),
                    progress: Some(Progress { current: 5, total: 5 }),
                    result: Some(r.sum),
                    error: None,
                },
            ),
        },
        Err(e) => HttpReplyView {
            status: 200,
            body: ReplyBodyView::Report(
                StatusReportView {
                    phase: PollPhase::Failed,
                    worker_id: None,
                    progress: None,
                    result: None,
                    error: Some(e@),
                },
            ),
        },
    }
}

/// The answer for a running workflow, from what its status query gave.
pub open spec fn query_reply_view(queried: Result<WorkflowStatusView, Seq<char>>) -> HttpReplyView {
    match queried {
        Ok(s) => match s.worker_id {
            None => HttpReplyView { status: STATUS_OK, body: report(PollPhase::Pending, None, None, None, None) },
            Some(w) => HttpReplyView {
                status: STATUS_OK,
                body: report(PollPhase::Running, Some(w), s.progress, None, None),
            },
        },
        Err(e) => HttpReplyView { status: STATUS_INTERNAL_ERROR, body: ReplyBodyView::Failure("query failed: "@ + e) },
    }
}

/// The answer for a workflow that is still open: PENDING while no worker has
/// reported, RUNNING with the worker and its progress after that, 500 where
/// the query failed.
pub fn query_reply(queried: Result<WorkflowStatus, String>) -> (r: HttpReply)
    ensures
        r@ == query_reply_view(outcome_view(queried)),
        r@ == answer_for_query(queried),
{
    match queried {
        Ok(WorkflowStatus { worker_id: None, .. }) => HttpReply {
            status: STATUS_OK,
            body: ReplyBody::Report(
                StatusReport { phase: PollPhase::Pending, worker_id: None, progress: None, result: None, error: None },
            ),
        },
        Ok(WorkflowStatus { worker_id, progress }) => HttpReply {
            status: STATUS_OK,
            body: ReplyBody::Report(
                StatusReport { phase: PollPhase::Running, worker_id, progress, result: None, error: None },
            ),
        },
        Err(e) => {
            let mut error = String::new();
            push_text(&mut error, "query failed: ");
            push_text(&mut error, e.as_str());
            HttpReply { status: STATUS_INTERNAL_ERROR, body: ReplyBody::Failure { error } }
        },
    }
}

/// The answer for a closed workflow, from what fetching its result gave.
pub open spec fn finished_reply_view(outcome: Result<AddResultView, Seq<char>>) -> HttpReplyView {
    match outcome {
        Ok(r) => HttpReplyView {
            status: STATUS_OK,
            body: report(
                PollPhase::Completed,
                Some(r.worker_id),
                Some(Progress { current: ACTIVITY_STEPS, total: ACTIVITY_STEPS }),
                Some(r.sum),
                None,
            ),
        },
        Err(e) => HttpReplyView { status: STATUS_OK, body: report(PollPhase::Failed, None, None, None, Some(e)) },
    }
}

/// The answer for a workflow that has closed: COMPLETED with the sum, the
/// worker and progress 5 of 5, or FAILED with the workflow's error (both
/// with status 200).
pub fn finished_reply(outcome: Result<AddResult, String>) -> (r: HttpReply)
    ensures
        r@ == finished_reply_view(outcome_view(outcome)),
        r@ == answer_for_result(outcome),
{
    match outcome {
        Ok(AddResult { sum, worker_id }) => HttpReply {
            status: STATUS_OK,
            body: ReplyBody::Report(
                StatusReport {
                    phase: PollPhase::Completed,
                    worker_id: Some(worker_id),
                    progress: Some(Progress { current: ACTIVITY_STEPS, total: ACTIVITY_STEPS }),
                    result: Some(sum),
                    error: None,
                },
            ),
        },
        Err(e) => HttpReply {
            status: STATUS_OK,
            body: ReplyBody::Report(
                StatusReport { phase: PollPhase::Failed, worker_id: None, progress: None, result: None, error: Some(e) },
            ),
        },
    }
}

/// What the server learned in answering `GET /result/{workflow_id}`.
#[derive(Debug)]
pub enum PollEvent {
    /// The workflow was described; `closed` tells whether it has stopped.
    Described { closed: bool },
    /// Describing the workflow failed with this message.
    DescribeFailed { message: String },
    /// The status query of an open workflow gave this.
    Queried(Result<WorkflowStatus, String>),
    /// Fetching the result of a closed workflow gave this.
    Fetched(Result<AddResult, String>),
}

/// What the server does next in answering `GET /result/{workflow_id}`.
#[derive(Debug)]
pub enum PollAction {
    /// Query the workflow's status.
    QueryStatus,
    /// Fetch the workflow's result.
    FetchResult,
    /// Answer with this reply.
    Respond(HttpReply),
}

/// The model of a [`PollAction`].
pub enum PollActionView {
    QueryStatus,
    FetchResult,
    Respond(HttpReplyView),
}

impl View for PollAction {
    type V = PollActionView;

    open spec fn view(&self) -> PollActionView {
        match self {
            PollAction::QueryStatus => PollActionView::QueryStatus,
            PollAction::FetchResult => PollActionView::FetchResult,
            PollAction::Respond(r) => PollActionView::Respond(r@),
        }
    }
}

/// The next step for each event: after a describe, query an open workflow
/// and fetch the result of a closed one; after anything else, answer.
pub open spec fn poll_step_view(event: PollEvent) -> PollActionView {
    match event {
        PollEvent::Described { closed } => if closed {
            PollActionView::FetchResult
        } else {
            PollActionView::QueryStatus
        },
        PollEvent::DescribeFailed { message } => PollActionView::Respond(
            describe_failure_view(message@, spec_to_lowercase(message@)),
        ),
        PollEvent::Queried(q) => PollActionView::Respond(query_reply_view(outcome_view(q))),
        PollEvent::Fetched(f) => PollActionView::Respond(finished_reply_view(outcome_view(f))),
    }
}

/// The decision procedure of `GET /result/{workflow_id}`: the server first
/// describes the workflow, then hands each outcome here and performs the
/// action that comes back until it is an answer.
pub fn poll_step(event: PollEvent) -> (a: PollAction)
    ensures
        a@ == poll_step_view(event),
        match event {
            PollEvent::Described { closed } => a@ == (if closed {
                PollActionView::FetchResult
            } else {
                PollActionView::QueryStatus
            }),
            PollEvent::DescribeFailed { message } => a@ == PollActionView::Respond(
                HttpReplyView {
                    status: if contains_text(spec_to_lowercase(message@), "not found"@) {
                        404u16
                    } else {
                        500u16
                    },
                    body: ReplyBodyView::Failure(message@),
                },
            ),
            PollEvent::Queried(q) => a@ == PollActionView::Respond(answer_for_query(q)),
            PollEvent::Fetched(f) => a@ == PollActionView::Respond(answer_for_result(f)),
        },
{
    match event {
        PollEvent::Described { closed } => if closed {
            PollAction::FetchResult
        } else {
            PollAction::QueryStatus
        },
        PollEvent::DescribeFailed { message } => PollAction::Respond(describe_failure_reply(message)),
        PollEvent::Queried(q) => PollAction::Respond(query_reply(q)),
        PollEvent::Fetched(f) => PollAction::Respond(finished_reply(f)),
    }
}

// ---------------------------------------------------------------------------
// GET /workers
// ---------------------------------------------------------------------------

/// Seconds since `last`, as of `now`, never negative; zero where the last
/// access is unknown.
pub open spec fn secs_ago(now: i64, last: Option<i64>) -> i64 {
    match last {
        Some(t) => if now - t > 0 {
            (now - t) as i64
        } else {
            0
        },
        None => 0,
    }
}

/// `now - last` fits in an `i64` (the subtraction does not overflow).
pub open spec fn gap_fits(now: i64, last: Option<i64>) -> bool {
    last matches Some(t) ==> i64::MIN <= now - t <= i64::MAX
}

/// Seconds since a poller's last access, as of `now`.
pub fn seconds_since(now: i64, last: Option<i64>) -> (r: i64)
    requires
        gap_fits(now, last),
    ensures
        r == secs_ago(now, last),
        r >= 0,
        last matches Some(t) ==> (t < now ==> r == now - t) && (now <= t ==> r == 0),
        last is None ==> r == 0,
{
    match last {
        Some(t) => {
            let d = now - t;
            if d > 0 {
                d
            } else {
                0
            }
        },
        None => 0,
    }
}

/// Every poller's gap to `now` fits in an `i64`.
pub open spec fn pollers_fit(now: i64, pollers: Seq<PollerSeen>) -> bool {
    forall|i: int| 0 <= i < pollers.len() ==> gap_fits(now, #[trigger] pollers[i].last_access_secs)
}

/// The worker list for a list of pollers, in the same order.
pub open spec fn workers_view(now: i64, pollers: Seq<PollerSeen>) -> Seq<WorkerSeenView> {
    pollers.map_values(
        |p: PollerSeen| WorkerSeenView { id: p.identity@, last_seen_secs_ago: secs_ago(now, p.last_access_secs) },
    )
}

/// Each poller as a worker seen `secs_ago` seconds before `now`.
pub fn list_workers(now: i64, pollers: Vec<PollerSeen>) -> (ws: Vec<WorkerSeen>)
    requires
        pollers_fit(now, pollers@),
    ensures
        ws@.map_values(|w: WorkerSeen| w@) == workers_view(now, pollers@),
        ws@.len() == pollers@.len(),
        forall|i: int|
            0 <= i < ws@.len() ==> {
                &&& (#[trigger] ws@[i]).id@ == pollers@[i].identity@
                &&& ws@[i].last_seen_secs_ago == match pollers@[i].last_access_secs {
                    Some(t) => if t < now {
                        now - t
                    } else {
                        0
                    },
                    None => 0,
                }
            },
{
    let mut ws: Vec<WorkerSeen> = Vec::new();
    let mut i: usize = 0;
    while i < pollers.len()
        invariant
            i <= pollers@.len(),
            ws@.len() == i,
            pollers_fit(now, pollers@),
            forall|k: int|
                0 <= k < i ==> (#[trigger] ws@[k])@ == (WorkerSeenView {
                    id: pollers@[k].identity@,
                    last_seen_secs_ago: secs_ago(now, pollers@[k].last_access_secs),
                }),
        decreases pollers@.len() - i,
    {
        let p = &pollers[i];
        assert(gap_fits(now, pollers@[i as int].last_access_secs));
        let secs = seconds_since(now, p.last_access_secs);
        ws.push(WorkerSeen { id: p.identity.clone(), last_seen_secs_ago: secs });
        i = i + 1;
    }
    assert(ws@.map_values(|w: WorkerSeen| w@) =~= workers_view(now, pollers@));
    ws
}

/// The answer to `GET /workers`, from what describing the task queue gave.
pub open spec fn workers_reply_view(now: i64, described: Result<Seq<PollerSeen>, Seq<char>>) -> HttpReplyView {
    match described {
        Ok(ps) => HttpReplyView { status: STATUS_OK, body: ReplyBodyView::Workers(workers_view(now, ps)) },
        Err(e) => HttpReplyView { status: STATUS_INTERNAL_ERROR, body: ReplyBodyView::Failure(e) },
    }
}

/// The answer to `GET /workers`: 200 with each poller and how many seconds
/// ago it last polled, or 500 with the error.
pub fn workers_reply(now: i64, described: Result<Vec<PollerSeen>, String>) -> (r: HttpReply)
    requires
        described matches Ok(ps) ==> pollers_fit(now, ps@),
    ensures
        r@ == workers_reply_view(
            now,
            match described {
                Ok(ps) => Ok(ps@),
                Err(e) => Err(e@),
            },
        ),
{
    match described {
        Ok(ps) => HttpReply { status: STATUS_OK, body: ReplyBody::Workers(list_workers(now, ps)) },
        Err(e) => HttpReply { status: STATUS_INTERNAL_ERROR, body: ReplyBody::Failure { error: e } },
    }
}

// ---------------------------------------------------------------------------
// Laws
// ---------------------------------------------------------------------------

/// Law: after the status query of an open workflow, `GET /result` answers
/// exactly the query's reply: PENDING while no worker is named, RUNNING with
/// the named worker `w` and its progress, 500 when the query failed.
pub proof fn law_poll_answers_query(q: Result<WorkflowStatus, String>)
    ensures
        poll_step_view(PollEvent::Queried(q)) == PollActionView::Respond(query_reply_view(outcome_view(q))),
        q matches Ok(s) ==> (s.worker_id matches Some(w) ==> poll_step_view(PollEvent::Queried(q))
            == PollActionView::Respond(
            HttpReplyView {
                status: 200,
                body: ReplyBodyView::Report(
                    StatusReportView {
                        phase: PollPhase::Running,
                        worker_id: Some(w@),
                        progress: s.progress,
                        result: None,
                        error: None,
                    },
                ),
            },
        )),
        q matches Ok(s) ==> (s.worker_id is None ==> poll_step_view(PollEvent::Queried(q))
            == PollActionView::Respond(
            HttpReplyView {
                status: 200,
                body: ReplyBodyView::Report(
                    StatusReportView {
                        phase: PollPhase::Pending,
                        worker_id: None,
                        progress: None,
                        result: None,
                        error: None,
                    },
                ),
            },
        )),
        q matches Err(e) ==> poll_step_view(PollEvent::Queried(q)) == PollActionView::Respond(
            HttpReplyView { status: 500, body: ReplyBodyView::Failure("query failed: "@ + e@) },
        ),
{
}

/// Law: after fetching the result of a closed workflow, `GET /result`
/// answers COMPLETED with the sum, the worker and progress 5 of 5, or FAILED
/// with the error, both with status 200.
pub proof fn law_poll_answers_result(f: Result<AddResult, String>)
    ensures
        poll_step_view(PollEvent::Fetched(f)) == PollActionView::Respond(finished_reply_view(outcome_view(f))),
        poll_step_view(PollEvent::Fetched(f)) == PollActionView::Respond(answer_for_result(f)),
        f matches Ok(r) ==> poll_step_view(PollEvent::Fetched(f)) == PollActionView::Respond(
            HttpReplyView {
                status: 200,
                body: ReplyBodyView::Report(
                    StatusReportView {
                        phase: PollPhase::Completed,
                        worker_id: Some(r.worker_id@),
                        progress: Some(Progress { current: 5, total: 5 }),
                        result: Some(r.sum),
                        error: None,
                    },
                ),
            },
        ),
        f matches Err(e) ==> poll_step_view(PollEvent::Fetched(f)) == PollActionView::Respond(
            HttpReplyView {
                status: 200,
                body: ReplyBodyView::Report(
                    StatusReportView {
                        phase: PollPhase::Failed,
                        worker_id: None,
                        progress: None,
                        result: None,
                        error: Some(e@),
                    },
                ),
            },
        ),
{
}

/// Law: a failed describe is answered with its message, as 404 exactly when
/// the lower-cased message mentions "not found" and as 500 otherwise.
pub proof fn law_poll_answers_describe_failure(message: String)
    ensures
        (poll_step_view(PollEvent::DescribeFailed { message }) matches PollActionView::Respond(r) && r.body
            == ReplyBodyView::Failure(message@) && (r.status == 404 <==> contains_text(
            spec_to_lowercase(message@),
            "not found"@,
        )) && (r.status == 404 || r.status == 500)),
{
}

/// Law: a started workflow is answered with 200 and its identifier exactly
/// as given; a failed start with 500 and the error.
pub proof fn law_calculate_answers_started_id(workflow_id: Seq<char>, started: Result<(), Seq<char>>)
    ensures
        started is Ok ==> calculate_reply_view(workflow_id, started) == (HttpReplyView {
            status: 200,
            body: ReplyBodyView::Started(workflow_id),
        }),
        started matches Err(e) ==> calculate_reply_view(workflow_id, started) == (HttpReplyView {
            status: 500,
            body: ReplyBodyView::Failure(e),
        }),
{
}

/// Law: the worker list has one entry per poller, in the pollers' order, each
/// with the poller's identity and the seconds since its last access (never
/// negative; zero where unknown). Stated where every `now - t` fits in an
/// `i64`, as the subtraction requires.
pub proof fn law_workers_listed_one_per_poller(now: i64, pollers: Seq<PollerSeen>)
    requires
        pollers_fit(now, pollers),
    ensures
        workers_view(now, pollers).len() == pollers.len(),
        forall|i: int|
            0 <= i < pollers.len() ==> {
                &&& (#[trigger] workers_view(now, pollers)[i]).id == pollers[i].identity@
                &&& workers_view(now, pollers)[i].last_seen_secs_ago == match pollers[i].last_access_secs {
                    Some(t) => if t < now {
                        now - t
                    } else {
                        0
                    },
                    None => 0,
                }
                &&& workers_view(now, pollers)[i].last_seen_secs_ago >= 0
            },
{
    assert forall|i: int| 0 <= i < pollers.len() implies {
        &&& (#[trigger] workers_view(now, pollers)[i]).id == pollers[i].identity@
        &&& workers_view(now, pollers)[i].last_seen_secs_ago == match pollers[i].last_access_secs {
            Some(t) => if t < now {
                now - t
            } else {
                0
            },
            None => 0,
        }
        &&& workers_view(now, pollers)[i].last_seen_secs_ago >= 0
    } by {
        assert(gap_fits(now, pollers[i].last_access_secs));
    }
}

/// Law: `GET /workers` answers 200 with the worker list of the pollers (one
/// entry per poller, as `law_workers_listed_one_per_poller` states) when the
/// task queue was described, and 500 with the error otherwise.
pub proof fn law_workers_reply(now: i64, described: Result<Seq<PollerSeen>, Seq<char>>)
    ensures
        described matches Ok(ps) ==> workers_reply_view(now, described) == (HttpReplyView {
            status: 200,
            body: ReplyBodyView::Workers(workers_view(now, ps)),
        }),
        described matches Err(e) ==> workers_reply_view(now, described) == (HttpReplyView {
            status: 500,
            body: ReplyBodyView::Failure(e),
        }),
{
}

} // verus!
