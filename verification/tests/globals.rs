use mini_temporal::shared::{global_client, global_worker_id, init_globals, WorkerGlobals, NAMESPACE, TASK_QUEUE, TEMPORAL_SERVER};

#[test]
fn identity_is_unknown_before_init() {
    let g: WorkerGlobals<u8> = WorkerGlobals::new();
    assert_eq!(global_worker_id(&g), "unknown");
    assert!(global_client(&g).is_none());
}

#[test]
fn first_init_wins() {
    let mut g: WorkerGlobals<u8> = WorkerGlobals::new();
    init_globals(&mut g, 7, "worker-a-1".to_string());
    assert_eq!(global_worker_id(&g), "worker-a-1");
    assert_eq!(global_client(&g), Some(&7));
    init_globals(&mut g, 9, "worker-b-2".to_string());
    assert_eq!(global_worker_id(&g), "worker-a-1");
    assert_eq!(global_client(&g), Some(&7));
}

#[test]
fn constants() {
    assert_eq!(TASK_QUEUE, "math-task-queue");
    assert_eq!(NAMESPACE, "default");
    assert_eq!(TEMPORAL_SERVER, "http://localhost:7233");
}
