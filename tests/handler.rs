use mouse_clicker_core::{
    ClickType, Config, HotkeyEvent, HotkeyInfo, KeyboardEventHandler, Reaction, TaskStart,
};

fn register(h: &mut KeyboardEventHandler, id: i32, click_type: ClickType) {
    let r = h.handle_event(HotkeyEvent::Register { id, click_type });
    assert!(r.notify.is_none());
    assert!(r.job.is_none());
}

fn press(h: &mut KeyboardEventHandler, id: i32) -> Reaction {
    h.handle_event(HotkeyEvent::HotKeyPressed { id })
}

#[test]
fn new_handler_has_default_config() {
    let h = KeyboardEventHandler::new();
    assert_eq!(h.config(), Config { times: 0, duration: 50 });
    assert_eq!(h.binding(1), None);
    assert!(!h.has_task(1));
}

#[test]
fn register_inserts_idle_binding() {
    let mut h = KeyboardEventHandler::new();
    register(&mut h, 1, ClickType::Right);
    assert_eq!(h.binding(1), Some(HotkeyInfo { click_type: ClickType::Right, status: false }));
    assert!(!h.has_task(1));
}

#[test]
fn toggle_round_trip() {
    let mut h = KeyboardEventHandler::new();
    register(&mut h, 1, ClickType::Left);
    let on = press(&mut h, 1);
    assert_eq!(on.notify, Some(true));
    let mut job = on.job.expect("a task starts");
    assert_eq!(job.start, TaskStart { id: 1, click_type: ClickType::Left, times: 0, duration: 50 });
    assert!(h.has_task(1));
    assert!(job.cancel.try_recv().is_err());
    let off = press(&mut h, 1);
    assert_eq!(off.notify, Some(false));
    assert!(off.job.is_none());
    assert_eq!(job.cancel.try_recv(), Ok(true));
    assert!(!h.has_task(1));
    assert_eq!(h.binding(1), Some(HotkeyInfo { click_type: ClickType::Left, status: false }));
}

#[test]
fn press_of_unknown_id_is_ignored() {
    let mut h = KeyboardEventHandler::new();
    let r = press(&mut h, 9);
    assert!(r.notify.is_none());
    assert!(r.job.is_none());
    assert_eq!(h.binding(9), None);
}

#[test]
fn manual_toggle_to_current_status_is_a_no_op() {
    let mut h = KeyboardEventHandler::new();
    register(&mut h, 2, ClickType::Middle);
    let r = h.handle_event(HotkeyEvent::ManualToggle { id: 2, start: false });
    assert!(r.notify.is_none());
    assert!(r.job.is_none());
    assert!(!h.has_task(2));
    let on = h.handle_event(HotkeyEvent::ManualToggle { id: 2, start: true });
    assert_eq!(on.notify, Some(true));
    assert!(on.job.is_some());
    let again = h.handle_event(HotkeyEvent::ManualToggle { id: 2, start: true });
    assert!(again.notify.is_none());
    assert!(again.job.is_none());
    assert!(h.has_task(2));
}

#[test]
fn manual_toggle_of_unknown_id_is_ignored() {
    let mut h = KeyboardEventHandler::new();
    let r = h.handle_event(HotkeyEvent::ManualToggle { id: 4, start: true });
    assert!(r.notify.is_none());
    assert!(r.job.is_none());
    assert!(!h.has_task(4));
}

#[test]
fn config_change_reaches_only_later_tasks() {
    let mut h = KeyboardEventHandler::new();
    register(&mut h, 1, ClickType::Left);
    register(&mut h, 2, ClickType::Right);
    let first = press(&mut h, 1).job.expect("a task starts");
    let r = h.handle_event(HotkeyEvent::ConfigChange { times: 5, duration: 120 });
    assert!(r.notify.is_none());
    assert!(r.job.is_none());
    assert_eq!(h.config(), Config { times: 5, duration: 120 });
    assert!(h.has_task(1));
    assert_eq!(first.start.times, 0);
    assert_eq!(first.start.duration, 50);
    let second = press(&mut h, 2).job.expect("a task starts");
    assert_eq!(second.start, TaskStart { id: 2, click_type: ClickType::Right, times: 5, duration: 120 });
}

#[test]
fn unregister_cancels_running_task() {
    let mut h = KeyboardEventHandler::new();
    register(&mut h, 3, ClickType::Left);
    let mut job = press(&mut h, 3).job.expect("a task starts");
    let r = h.handle_event(HotkeyEvent::Unregister { id: 3 });
    assert!(r.notify.is_none());
    assert!(r.job.is_none());
    assert_eq!(job.cancel.try_recv(), Ok(true));
    assert_eq!(h.binding(3), None);
    assert!(!h.has_task(3));
}

#[test]
fn task_completed_clears_status_and_handle() {
    let mut h = KeyboardEventHandler::new();
    register(&mut h, 1, ClickType::Left);
    let mut job = press(&mut h, 1).job.expect("a task starts");
    let r = h.handle_event(HotkeyEvent::TaskCompleted { id: 1 });
    assert!(r.notify.is_none());
    assert!(r.job.is_none());
    assert!(!h.has_task(1));
    assert_eq!(h.binding(1), Some(HotkeyInfo { click_type: ClickType::Left, status: false }));
    assert!(job.cancel.try_recv().is_err());
}

#[test]
fn task_completed_for_unknown_id_is_harmless() {
    let mut h = KeyboardEventHandler::new();
    let r = h.handle_event(HotkeyEvent::TaskCompleted { id: 8 });
    assert!(r.notify.is_none());
    assert_eq!(h.binding(8), None);
}

#[test]
fn register_again_cancels_running_task() {
    let mut h = KeyboardEventHandler::new();
    register(&mut h, 1, ClickType::Left);
    let mut job = press(&mut h, 1).job.expect("a task starts");
    register(&mut h, 1, ClickType::Middle);
    assert_eq!(job.cancel.try_recv(), Ok(true));
    assert!(!h.has_task(1));
    assert_eq!(h.binding(1), Some(HotkeyInfo { click_type: ClickType::Middle, status: false }));
}

#[test]
fn binding_set_follows_registrations() {
    let mut h = KeyboardEventHandler::new();
    register(&mut h, 1, ClickType::Left);
    register(&mut h, 2, ClickType::Left);
    h.handle_event(HotkeyEvent::Unregister { id: 1 });
    register(&mut h, 3, ClickType::Right);
    h.handle_event(HotkeyEvent::Unregister { id: 7 });
    assert_eq!(h.binding(1), None);
    assert!(h.binding(2).is_some());
    assert!(h.binding(3).is_some());
    assert_eq!(h.binding(7), None);
}
