use mouse_clicker_core::{ClickPlan, HotkeyEvent, TaskEnd};

#[test]
fn single_click_run_ends_without_wait() {
    let mut plan = ClickPlan::new(1);
    assert!(!plan.after_click());
    let end = ClickPlan::finish(1, true);
    assert_eq!(end, TaskEnd { notify: Some(false), event: Some(HotkeyEvent::TaskCompleted { id: 1 }) });
}

#[test]
fn bounded_run_makes_exact_number_of_clicks() {
    let mut plan = ClickPlan::new(3);
    assert_eq!(plan.times(), 3);
    let mut clicks: usize = 1;
    while plan.after_click() {
        clicks += 1;
    }
    assert_eq!(clicks, 3);
}

#[test]
fn unbounded_run_never_ends_on_its_own() {
    let mut plan = ClickPlan::new(0);
    for _ in 0..10_000 {
        assert!(plan.after_click());
    }
}

#[test]
fn cancelled_task_reports_nothing() {
    assert_eq!(ClickPlan::finish(5, false), TaskEnd { notify: None, event: None });
}
