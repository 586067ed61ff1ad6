use mini_temporal::shared::{AddInput, ProgressSignal};
use mini_temporal::workflow::ACTIVITY_START_TO_CLOSE_SECS;
use mini_temporal::AddWorkflow;

#[test]
fn fresh_workflow_has_no_worker_or_progress() {
    let w = AddWorkflow::new(AddInput { x: 3, y: 4 });
    let s = w.get_status();
    assert!(s.worker_id.is_none());
    assert!(s.progress.is_none());
}

#[test]
fn run_schedules_stored_inputs_with_timeout() {
    let w = AddWorkflow::new(AddInput { x: -7, y: 12 });
    let req = w.run();
    assert_eq!(req.input.x, -7);
    assert_eq!(req.input.y, 12);
    assert_eq!(req.start_to_close_secs, 120);
    assert_eq!(ACTIVITY_START_TO_CLOSE_SECS, 120);
}

#[test]
fn query_reads_last_signal() {
    let mut w = AddWorkflow::new(AddInput { x: 1, y: 2 });
    w.progress_update(ProgressSignal { worker_id: "worker-a-1".to_string(), current: 0, total: 5 });
    w.progress_update(ProgressSignal { worker_id: "worker-b-2".to_string(), current: 3, total: 5 });
    let s = w.get_status();
    assert_eq!(s.worker_id.as_deref(), Some("worker-b-2"));
    let p = s.progress.unwrap();
    assert_eq!((p.current, p.total), (3, 5));
}

#[test]
fn signals_keep_scheduled_inputs() {
    let mut w = AddWorkflow::new(AddInput { x: 40, y: 2 });
    w.progress_update(ProgressSignal { worker_id: "w".to_string(), current: 5, total: 5 });
    let req = w.run();
    assert_eq!((req.input.x, req.input.y), (40, 2));
}
