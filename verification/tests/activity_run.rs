use mini_temporal::activity::{ActivityAction, ACTIVITY_STEPS, STEP_DELAY_SECS};
use mini_temporal::shared::AddInput;
use mini_temporal::AddActivities;

fn run_all(x: i64, y: i64, worker: &str) -> Vec<ActivityAction> {
    let (mut run, first) = AddActivities::add_numbers(AddInput { x, y }, worker.to_string());
    let mut actions = vec![first];
    while !run.is_finished() {
        actions.push(run.advance());
    }
    actions
}

#[test]
fn run_has_announcement_five_steps_and_completion() {
    let actions = run_all(2, 3, "worker-h-9");
    assert_eq!(actions.len(), 17);
    match &actions[0] {
        ActivityAction::Signal(s) => {
            assert_eq!((s.current, s.total), (0, 5));
            assert_eq!(s.worker_id, "worker-h-9");
        }
        other => panic!("unexpected first action {:?}", other),
    }
    for step in 1..=5u32 {
        let base = (3 * step) as usize;
        assert!(matches!(actions[base - 2], ActivityAction::Sleep { secs: 1 }));
        assert!(matches!(actions[base - 1], ActivityAction::Heartbeat));
        match &actions[base] {
            ActivityAction::Signal(s) => {
                assert_eq!((s.current, s.total), (step, ACTIVITY_STEPS));
                assert_eq!(s.worker_id, "worker-h-9");
            }
            other => panic!("unexpected action {:?}", other),
        }
    }
    match &actions[16] {
        ActivityAction::Complete(r) => {
            assert_eq!(r.sum, 5);
            assert_eq!(r.worker_id, "worker-h-9");
        }
        other => panic!("unexpected last action {:?}", other),
    }
    assert_eq!(STEP_DELAY_SECS, 1);
}

#[test]
fn run_sums_negative_and_large_values() {
    let actions = run_all(i64::MAX - 1, 1, "w");
    match actions.last().unwrap() {
        ActivityAction::Complete(r) => assert_eq!(r.sum, i64::MAX),
        other => panic!("unexpected last action {:?}", other),
    }
    let actions = run_all(-10, 4, "w");
    match actions.last().unwrap() {
        ActivityAction::Complete(r) => assert_eq!(r.sum, -6),
        other => panic!("unexpected last action {:?}", other),
    }
}

#[test]
fn signalled_progress_increases() {
    let actions = run_all(0, 0, "w");
    let currents: Vec<u32> = actions
        .iter()
        .filter_map(|a| match a {
            ActivityAction::Signal(s) => Some(s.current),
            _ => None,
        })
        .collect();
    assert_eq!(currents, vec![0, 1, 2, 3, 4, 5]);
}
