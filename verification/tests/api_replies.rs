use mini_temporal::activity::ActivityAction;
use mini_temporal::shared::AddInput;
use mini_temporal::{AddActivities, AddWorkflow};
use mini_temporal::api::{
    calculate_reply, describe_failure_reply, describe_failure_reply_lowered, finished_reply, list_workers,
    new_workflow_id, poll_step, query_reply, seconds_since, workers_reply, workflow_id_from, HttpReply, PollAction,
    PollEvent, PollPhase, PollerSeen, ReplyBody, StatusReport, STATUS_INTERNAL_ERROR, STATUS_NOT_FOUND, STATUS_OK,
};
use mini_temporal::shared::{AddResult, Progress, WorkflowStatus};

fn report_of(r: &HttpReply) -> &StatusReport {
    match &r.body {
        ReplyBody::Report(rep) => rep,
        other => panic!("not a report: {:?}", other),
    }
}

fn failure_of(r: &HttpReply) -> &str {
    match &r.body {
        ReplyBody::Failure { error } => error,
        other => panic!("not a failure: {:?}", other),
    }
}

#[test]
fn workflow_id_format() {
    assert_eq!(workflow_id_from(3, -4, "67e55044-10b1-426f-9247-bb680e5fe0c8"), "add-3--4-67e55044");
    assert_eq!(workflow_id_from(0, 0, "abcdefghij"), "add-0-0-abcdefgh");
}

#[test]
fn new_workflow_ids_are_random_hex() {
    let a = new_workflow_id(1, 2);
    let b = new_workflow_id(1, 2);
    assert!(a.starts_with("add-1-2-"));
    let tail = &a["add-1-2-".len()..];
    assert_eq!(tail.len(), 8);
    assert!(tail.chars().all(|c| c.is_ascii_hexdigit() && !c.is_ascii_uppercase()));
    assert_ne!(a, b);
}

#[test]
fn calculate_replies() {
    let ok = calculate_reply("add-1-2-abcdef01".to_string(), Ok(()));
    assert_eq!(ok.status, STATUS_OK);
    match &ok.body {
        ReplyBody::Started { workflow_id } => assert_eq!(workflow_id, "add-1-2-abcdef01"),
        other => panic!("{:?}", other),
    }
    let err = calculate_reply("id".to_string(), Err("unavailable".to_string()));
    assert_eq!(err.status, STATUS_INTERNAL_ERROR);
    assert_eq!(failure_of(&err), "unavailable");
}

#[test]
fn describe_failures() {
    let r = describe_failure_reply("Workflow execution NOT FOUND for id".to_string());
    assert_eq!(r.status, STATUS_NOT_FOUND);
    assert_eq!(failure_of(&r), "Workflow execution NOT FOUND for id");
    let r = describe_failure_reply("connection refused".to_string());
    assert_eq!(r.status, STATUS_INTERNAL_ERROR);
    let r = describe_failure_reply_lowered("X".to_string(), "it was not found");
    assert_eq!(r.status, STATUS_NOT_FOUND);
    let r = describe_failure_reply_lowered("X".to_string(), "it was NOT FOUND");
    assert_eq!(r.status, STATUS_INTERNAL_ERROR);
}

#[test]
fn pending_running_and_query_failure() {
    let r = query_reply(Ok(WorkflowStatus { worker_id: None, progress: None }));
    assert_eq!(r.status, STATUS_OK);
    let rep = report_of(&r);
    assert_eq!(rep.phase, PollPhase::Pending);
    assert_eq!(rep.phase.label(), "PENDING");
    assert!(rep.worker_id.is_none() && rep.progress.is_none() && rep.result.is_none() && rep.error.is_none());

    let r = query_reply(Ok(WorkflowStatus {
        worker_id: Some("worker-x-1".to_string()),
        progress: Some(Progress { current: 2, total: 5 }),
    }));
    assert_eq!(r.status, STATUS_OK);
    let rep = report_of(&r);
    assert_eq!(rep.phase.label(), "RUNNING");
    assert_eq!(rep.worker_id.as_deref(), Some("worker-x-1"));
    let p = rep.progress.unwrap();
    assert_eq!((p.current, p.total), (2, 5));
    assert!(rep.result.is_none() && rep.error.is_none());

    let r = query_reply(Err("deadline exceeded".to_string()));
    assert_eq!(r.status, STATUS_INTERNAL_ERROR);
    assert_eq!(failure_of(&r), "query failed: deadline exceeded");
}

#[test]
fn completed_and_failed() {
    let r = finished_reply(Ok(AddResult { sum: 42, worker_id: "worker-y-2".to_string() }));
    assert_eq!(r.status, STATUS_OK);
    let rep = report_of(&r);
    assert_eq!(rep.phase.label(), "COMPLETED");
    assert_eq!(rep.result, Some(42));
    assert_eq!(rep.worker_id.as_deref(), Some("worker-y-2"));
    let p = rep.progress.unwrap();
    assert_eq!((p.current, p.total), (5, 5));
    assert!(rep.error.is_none());

    let r = finished_reply(Err("activity timed out".to_string()));
    assert_eq!(r.status, STATUS_OK);
    let rep = report_of(&r);
    assert_eq!(rep.phase.label(), "FAILED");
    assert_eq!(rep.error.as_deref(), Some("activity timed out"));
    assert!(rep.worker_id.is_none() && rep.progress.is_none() && rep.result.is_none());
}

#[test]
fn poll_steps() {
    assert!(matches!(poll_step(PollEvent::Described { closed: false }), PollAction::QueryStatus));
    assert!(matches!(poll_step(PollEvent::Described { closed: true }), PollAction::FetchResult));
    match poll_step(PollEvent::DescribeFailed { message: "Not Found".to_string() }) {
        PollAction::Respond(r) => assert_eq!(r.status, STATUS_NOT_FOUND),
        _ => panic!("expected an answer"),
    }
    match poll_step(PollEvent::Fetched(Ok(AddResult { sum: -1, worker_id: "w".to_string() }))) {
        PollAction::Respond(r) => assert_eq!(report_of(&r).result, Some(-1)),
        _ => panic!("expected an answer"),
    }
    match poll_step(PollEvent::Queried(Ok(WorkflowStatus { worker_id: None, progress: None }))) {
        PollAction::Respond(r) => assert_eq!(report_of(&r).phase, PollPhase::Pending),
        _ => panic!("expected an answer"),
    }
}

#[test]
fn seconds_since_last_access() {
    assert_eq!(seconds_since(100, Some(40)), 60);
    assert_eq!(seconds_since(100, Some(140)), 0);
    assert_eq!(seconds_since(100, None), 0);
}

#[test]
fn workers_list_and_failure() {
    let pollers = vec![
        PollerSeen { identity: "worker-a-1".to_string(), last_access_secs: Some(995) },
        PollerSeen { identity: "worker-b-2".to_string(), last_access_secs: None },
    ];
    let ws = list_workers(1000, pollers);
    assert_eq!(ws.len(), 2);
    assert_eq!((ws[0].id.as_str(), ws[0].last_seen_secs_ago), ("worker-a-1", 5));
    assert_eq!((ws[1].id.as_str(), ws[1].last_seen_secs_ago), ("worker-b-2", 0));

    let r = workers_reply(1000, Ok(Vec::new()));
    assert_eq!(r.status, STATUS_OK);
    assert!(matches!(&r.body, ReplyBody::Workers(v) if v.is_empty()));
    let r = workers_reply(1000, Err("unavailable".to_string()));
    assert_eq!(r.status, STATUS_INTERNAL_ERROR);
    assert_eq!(failure_of(&r), "unavailable");
}

#[test]
fn workflow_lifecycle_end_to_end() {
    let mut wf = AddWorkflow::new(AddInput { x: 19, y: 23 });
    let r = query_reply(Ok(wf.get_status()));
    assert_eq!(report_of(&r).phase, PollPhase::Pending);

    let req = wf.run();
    let (mut run, mut action) = AddActivities::add_numbers(req.input, "worker-z-5".to_string());
    let result = loop {
        match action {
            ActivityAction::Signal(s) => {
                let current = s.current;
                wf.progress_update(s);
                let r = query_reply(Ok(wf.get_status()));
                let rep = report_of(&r);
                assert_eq!(rep.phase, PollPhase::Running);
                assert_eq!(rep.worker_id.as_deref(), Some("worker-z-5"));
                assert_eq!(rep.progress.unwrap().current, current);
            }
            ActivityAction::Complete(res) => break res,
            _ => {}
        }
        action = run.advance();
    };
    let r = finished_reply(Ok(result));
    let rep = report_of(&r);
    assert_eq!(rep.phase, PollPhase::Completed);
    assert_eq!(rep.result, Some(42));
    assert_eq!(rep.worker_id.as_deref(), Some("worker-z-5"));
}
