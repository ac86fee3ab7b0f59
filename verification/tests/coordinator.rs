use app_coordinator::app_handle::{ApplicationHandle, IdlePass, UserAction};
use app_coordinator::event::{AppUpdateEvent, UpdateAction, UserEvent, WindowAction, WindowEvent};
use app_coordinator::queue::EventQueue;
use app_coordinator::timer::{ControlFlow, Timer, TimerToken};
use app_coordinator::window::{
    Modifiers, Platform, Point, Scalar, Size, WindowAttributes, WindowConfig, WindowEntry, WindowId,
};

type Handle = ApplicationHandle<&'static str, u32, &'static str>;
type Update = AppUpdateEvent<&'static str, &'static str>;

fn scalar(value: f64) -> Scalar {
    Scalar { bits: value.to_bits() }
}

fn entry(window: &'static str, state: u32) -> WindowEntry<&'static str, u32> {
    WindowEntry::new(window, scalar(2.0), state)
}

fn timer(token: u64, deadline: u64, action: &'static str) -> Timer<&'static str> {
    Timer { token: TimerToken(token), deadline, action }
}

fn with_windows(platform: Platform, ids: &[u64]) -> Handle {
    let mut handle = ApplicationHandle::new(platform);
    for id in ids {
        assert!(handle.new_window(Some((WindowId(*id), entry("w", *id as u32)))));
    }
    handle
}

fn every_event() -> Vec<WindowEvent> {
    vec![
        WindowEvent::ActivationTokenDone,
        WindowEvent::Resized { width: 800, height: 600 },
        WindowEvent::Moved { x: -5, y: 9 },
        WindowEvent::CloseRequested,
        WindowEvent::Destroyed,
        WindowEvent::DroppedFile,
        WindowEvent::HoveredFile,
        WindowEvent::HoveredFileCancelled,
        WindowEvent::Focused(true),
        WindowEvent::KeyboardInput,
        WindowEvent::ModifiersChanged(Modifiers { bits: 0b100 }),
        WindowEvent::Ime,
        WindowEvent::CursorMoved { position: Point { x: scalar(3.5), y: scalar(4.5) } },
        WindowEvent::CursorEntered,
        WindowEvent::CursorLeft,
        WindowEvent::MouseWheel,
        WindowEvent::MouseInput,
        WindowEvent::TouchpadMagnify,
        WindowEvent::SmartMagnify,
        WindowEvent::TouchpadRotate,
        WindowEvent::TouchpadPressure,
        WindowEvent::AxisMotion,
        WindowEvent::Touch,
        WindowEvent::ScaleFactorChanged(scalar(1.5)),
        WindowEvent::ThemeChanged,
        WindowEvent::Occluded,
        WindowEvent::MenuAction(3),
        WindowEvent::RedrawRequested,
    ]
}

#[test]
fn a_new_coordinator_is_empty() {
    let handle: Handle = ApplicationHandle::new(Platform::Windowed);
    assert!(handle.windows.is_empty());
    assert!(handle.timers.is_empty());
    assert_eq!(handle.platform, Platform::Windowed);
    assert_eq!(handle.fire_timer(), ControlFlow::Wait);
}

#[test]
fn a_window_that_the_platform_did_not_build_is_dropped() {
    let mut handle: Handle = ApplicationHandle::new(Platform::Windowed);
    assert!(!handle.new_window(None));
    assert_eq!(handle.windows.len(), 0);
}

#[test]
fn every_event_for_an_unknown_window_is_dropped() {
    for event in every_event() {
        let mut handle = with_windows(Platform::Windowed, &[1]);
        assert_eq!(handle.handle_window_event(WindowId(2), event), WindowAction::Nothing);
        assert_eq!(handle.windows.len(), 1);
        assert!(!handle.windows.contains(WindowId(2)));
        assert_eq!(handle.windows.lookup(WindowId(1)), Some(&entry("w", 1)));
    }
    for event in every_event() {
        let mut handle: Handle = ApplicationHandle::new(Platform::Resident);
        assert_eq!(handle.handle_window_event(WindowId(0), event), WindowAction::Nothing);
        assert!(handle.windows.is_empty());
    }
}

#[test]
fn each_event_owes_its_action() {
    let scale = scalar(2.0);
    let expected = vec![
        WindowAction::Nothing,
        WindowAction::Size { width: 800, height: 600, scale },
        WindowAction::Position { x: -5, y: 9, scale },
        WindowAction::Teardown,
        WindowAction::Teardown,
        WindowAction::Nothing,
        WindowAction::Nothing,
        WindowAction::Nothing,
        WindowAction::Focused(true),
        WindowAction::KeyEvent,
        WindowAction::Nothing,
        WindowAction::Ime,
        WindowAction::PointerMove { position: Point { x: scalar(3.5), y: scalar(4.5) }, scale },
        WindowAction::Nothing,
        WindowAction::PointerLeave,
        WindowAction::MouseWheel,
        WindowAction::MouseInput,
        WindowAction::Nothing,
        WindowAction::Nothing,
        WindowAction::Nothing,
        WindowAction::Nothing,
        WindowAction::Nothing,
        WindowAction::Nothing,
        WindowAction::Scale(scalar(1.5)),
        WindowAction::ThemeChanged,
        WindowAction::Nothing,
        WindowAction::MenuAction(3),
        WindowAction::Paint,
    ];
    for (event, action) in every_event().into_iter().zip(expected) {
        let mut handle = with_windows(Platform::Windowed, &[1, 2]);
        assert_eq!(handle.handle_window_event(WindowId(1), event), action);
        assert_eq!(handle.windows.len(), 2);
        assert_eq!(handle.windows.lookup(WindowId(2)), Some(&entry("w", 2)));
    }
}

#[test]
fn only_close_scale_and_modifiers_change_the_entry() {
    for event in every_event() {
        let mut handle = with_windows(Platform::Windowed, &[1]);
        handle.handle_window_event(WindowId(1), event);
        let mut expected = entry("w", 1);
        match event {
            WindowEvent::CloseRequested | WindowEvent::Destroyed => expected.window = None,
            WindowEvent::ScaleFactorChanged(scale) => expected.scale = scale,
            WindowEvent::ModifiersChanged(modifiers) => expected.modifiers = modifiers,
            _ => {}
        }
        assert_eq!(handle.windows.lookup(WindowId(1)), Some(&expected));
    }
}

#[test]
fn a_reported_scale_is_used_for_later_conversions() {
    let mut handle = with_windows(Platform::Windowed, &[1, 2]);
    let event = WindowEvent::ScaleFactorChanged(scalar(1.25));
    assert_eq!(handle.handle_window_event(WindowId(1), event), WindowAction::Scale(scalar(1.25)));
    assert_eq!(
        handle.handle_window_event(WindowId(1), WindowEvent::Resized { width: 10, height: 20 }),
        WindowAction::Size { width: 10, height: 20, scale: scalar(1.25) }
    );
    assert_eq!(
        handle.handle_window_event(WindowId(1), WindowEvent::Moved { x: 1, y: 2 }),
        WindowAction::Position { x: 1, y: 2, scale: scalar(1.25) }
    );
    assert_eq!(
        handle.handle_window_event(WindowId(2), WindowEvent::Resized { width: 10, height: 20 }),
        WindowAction::Size { width: 10, height: 20, scale: scalar(2.0) }
    );
}

#[test]
fn the_last_window_ends_a_windowed_application() {
    let mut handle = with_windows(Platform::Windowed, &[1, 2]);
    assert_eq!(handle.handle_window_event(WindowId(1), WindowEvent::CloseRequested), WindowAction::Teardown);
    assert_eq!(handle.windows.len(), 2);
    let outcome = handle.finish_close(WindowId(1));
    assert_eq!(outcome.entry.map(|e| (e.window, e.state)), Some((None, 1)));
    assert!(!outcome.exit);
    assert_eq!(handle.windows.len(), 1);
    assert!(handle.close_window(WindowId(2)));
    let outcome = handle.finish_close(WindowId(2));
    assert!(outcome.entry.is_some());
    assert!(outcome.exit);
    assert!(handle.windows.is_empty());
}

#[test]
fn a_resident_application_outlives_its_last_window() {
    let mut handle = with_windows(Platform::Resident, &[1]);
    assert_eq!(handle.handle_window_event(WindowId(1), WindowEvent::Destroyed), WindowAction::Teardown);
    let outcome = handle.finish_close(WindowId(1));
    assert!(outcome.entry.is_some());
    assert!(!outcome.exit);
    assert!(handle.windows.is_empty());
}

#[test]
fn a_second_close_event_is_dropped() {
    let mut handle = with_windows(Platform::Windowed, &[1, 2]);
    assert_eq!(handle.handle_window_event(WindowId(1), WindowEvent::CloseRequested), WindowAction::Teardown);
    assert!(handle.finish_close(WindowId(1)).entry.is_some());
    assert_eq!(handle.handle_window_event(WindowId(1), WindowEvent::Destroyed), WindowAction::Nothing);
    assert_eq!(handle.handle_window_event(WindowId(1), WindowEvent::CloseRequested), WindowAction::Nothing);
    assert!(!handle.close_window(WindowId(1)));
    let outcome = handle.finish_close(WindowId(1));
    assert_eq!(outcome.entry, None);
    assert!(!outcome.exit);
    assert_eq!(handle.windows.len(), 1);
    assert_eq!(handle.windows.lookup(WindowId(2)), Some(&entry("w", 2)));
}

#[test]
fn closing_an_unknown_window_never_ends_the_application() {
    let mut handle: Handle = ApplicationHandle::new(Platform::Windowed);
    assert!(!handle.close_window(WindowId(1)));
    let outcome = handle.finish_close(WindowId(1));
    assert_eq!(outcome.entry, None);
    assert!(!outcome.exit);
}

#[test]
fn a_window_is_still_found_while_it_is_torn_down() {
    let mut handle = with_windows(Platform::Windowed, &[1]);
    assert!(handle.close_window(WindowId(1)));
    let torn = handle.windows.lookup(WindowId(1)).unwrap();
    assert_eq!(torn.window, None);
    assert_eq!(torn.state, 1);
    assert_eq!(handle.windows.len(), 1);
    assert!(handle.windows.contains(WindowId(1)));
    assert!(!handle.windows.is_open(WindowId(1)));
}

#[test]
fn a_window_that_is_being_torn_down_gets_no_event() {
    for event in every_event() {
        let mut handle = with_windows(Platform::Windowed, &[1, 2]);
        assert!(handle.close_window(WindowId(1)));
        let mut torn = entry("w", 1);
        torn.window = None;
        assert_eq!(handle.handle_window_event(WindowId(1), event), WindowAction::Nothing);
        assert_eq!(handle.windows.lookup(WindowId(1)), Some(&torn));
        assert_eq!(handle.windows.lookup(WindowId(2)), Some(&entry("w", 2)));
    }
    let mut handle = with_windows(Platform::Windowed, &[1]);
    assert_eq!(handle.handle_window_event(WindowId(1), WindowEvent::CloseRequested), WindowAction::Teardown);
    assert_eq!(handle.handle_window_event(WindowId(1), WindowEvent::Destroyed), WindowAction::Nothing);
    assert!(!handle.close_window(WindowId(1)));
    let action = handle.handle_update_event(Update::CloseWindow { window_id: WindowId(1) });
    assert_eq!(action, UpdateAction::Nothing);
    let action = handle.handle_update_event(Update::MenuAction { window_id: WindowId(1), action_id: 2 });
    assert_eq!(action, UpdateAction::Nothing);
    let outcome = handle.finish_close(WindowId(1));
    assert!(outcome.entry.is_some());
    assert!(outcome.exit);
}

#[test]
fn requests_are_applied_one_by_one() {
    let mut handle = with_windows(Platform::Windowed, &[1]);
    let config = WindowConfig {
        size: Some(Size { width: scalar(0.0), height: scalar(600.0) }),
        position: None,
        show_titlebar: Some(false),
    };
    let action = handle.handle_update_event(Update::NewWindow { view_fn: "view", config: Some(config) });
    assert_eq!(
        action,
        UpdateAction::BuildWindow {
            view_fn: "view",
            attributes: WindowAttributes {
                inner_size: Some(Size { width: scalar(800.0), height: scalar(600.0) }),
                position: None,
                decorations: false,
                title_hidden: false,
                titlebar_transparent: false,
                fullsize_content_view: false,
            },
        }
    );
    assert_eq!(handle.windows.len(), 1);
    assert!(handle.new_window(Some((WindowId(2), entry("built", 2)))));
    let action = handle.handle_update_event(Update::CloseWindow { window_id: WindowId(1) });
    assert_eq!(action, UpdateAction::Teardown(WindowId(1)));
    assert!(!handle.finish_close(WindowId(1)).exit);
    let action = handle.handle_update_event(Update::CloseWindow { window_id: WindowId(1) });
    assert_eq!(action, UpdateAction::Nothing);
    let action = handle.handle_update_event(Update::MenuAction { window_id: WindowId(2), action_id: 5 });
    assert_eq!(action, UpdateAction::MenuAction { window_id: WindowId(2), action_id: 5 });
    let action = handle.handle_update_event(Update::MenuAction { window_id: WindowId(1), action_id: 5 });
    assert_eq!(action, UpdateAction::Nothing);
    let action = handle.handle_update_event(Update::RequestTimer { timer: timer(1, 70, "t") });
    assert_eq!(action, UpdateAction::SetControlFlow(ControlFlow::WaitUntil(70)));
    let action = handle.handle_update_event(Update::RequestTimer { timer: timer(2, 90, "u") });
    assert_eq!(action, UpdateAction::SetControlFlow(ControlFlow::WaitUntil(70)));
    let action = handle.handle_update_event(Update::RequestTimer { timer: timer(3, 20, "v") });
    assert_eq!(action, UpdateAction::SetControlFlow(ControlFlow::WaitUntil(20)));
    assert_eq!(handle.windows.len(), 1);
    assert_eq!(handle.timers.len(), 3);
}

#[test]
fn timers_fire_and_the_loop_is_rescheduled() {
    let t0: u64 = 5_000;
    let mut handle = with_windows(Platform::Windowed, &[1, 2]);
    assert_eq!(handle.request_timer(timer(1, t0 + 50, "A")), ControlFlow::WaitUntil(t0 + 50));
    assert_eq!(handle.request_timer(timer(2, t0 + 10, "B")), ControlFlow::WaitUntil(t0 + 10));
    assert_eq!(handle.request_timer(timer(3, t0 + 30, "C")), ControlFlow::WaitUntil(t0 + 10));
    assert_eq!(handle.fire_timer(), ControlFlow::WaitUntil(t0 + 10));
    let pass = handle.handle_timer(t0 + 35);
    assert_eq!(pass.fired, vec![timer(2, t0 + 10, "B"), timer(3, t0 + 30, "C")]);
    let mut updated: Vec<u64> = pass.process_update.iter().map(|id| id.0).collect();
    updated.sort();
    assert_eq!(updated, vec![1, 2]);
    assert_eq!(pass.control_flow, ControlFlow::WaitUntil(t0 + 50));
    assert_eq!(handle.timers.len(), 1);
    assert_eq!(handle.windows.len(), 2);
}

#[test]
fn a_wake_without_due_timers_updates_no_window() {
    let mut handle = with_windows(Platform::Windowed, &[1, 2]);
    handle.request_timer(timer(1, 100, "A"));
    let pass = handle.handle_timer(99);
    assert!(pass.fired.is_empty());
    assert!(pass.process_update.is_empty());
    assert_eq!(pass.control_flow, ControlFlow::WaitUntil(100));
    let pass = handle.handle_timer(100);
    assert_eq!(pass.fired.len(), 1);
    assert_eq!(pass.process_update.len(), 2);
    assert_eq!(pass.control_flow, ControlFlow::Wait);
    let pass = handle.handle_timer(100);
    assert!(pass.fired.is_empty());
    assert!(pass.process_update.is_empty());
    assert_eq!(pass.control_flow, ControlFlow::Wait);
}

#[test]
fn an_idle_pass_notifies_everything_and_updates_every_window() {
    let handle = with_windows(Platform::Windowed, &[4, 5, 6]);
    let mut notifications = EventQueue::new();
    notifications.push("n1");
    notifications.push("n2");
    notifications.push("n3");
    let pass = handle.idle(&mut notifications);
    assert_eq!(pass.notify, vec!["n1", "n2", "n3"]);
    assert!(notifications.is_empty());
    let mut updated: Vec<u64> = pass.process_update.iter().map(|id| id.0).collect();
    updated.sort();
    assert_eq!(updated, vec![4, 5, 6]);
    notifications.push("n4");
    let pass = handle.idle(&mut notifications);
    assert_eq!(pass.notify, vec!["n4"]);
    assert!(notifications.is_empty());
    let pass = handle.idle(&mut notifications);
    assert!(pass.notify.is_empty());
    assert_eq!(pass.process_update.len(), 3);
}

#[test]
fn user_events_are_told_apart() {
    let handle = with_windows(Platform::Windowed, &[4]);
    let mut updates: EventQueue<AppUpdateEvent<&'static str, &'static str>> = EventQueue::new();
    let mut notifications: EventQueue<&'static str> = EventQueue::new();
    updates.push(AppUpdateEvent::CloseWindow { window_id: WindowId(4) });
    updates.push(AppUpdateEvent::RequestTimer { timer: timer(1, 10, "t") });
    notifications.push("n1");
    let action = handle.handle_user_event(UserEvent::QuitApp, &mut updates, &mut notifications);
    assert_eq!(action, UserAction::Exit);
    assert_eq!(updates.len(), 2);
    assert_eq!(notifications.len(), 1);
    let action = handle.handle_user_event(UserEvent::AppUpdate, &mut updates, &mut notifications);
    assert_eq!(
        action,
        UserAction::Updates(vec![
            AppUpdateEvent::CloseWindow { window_id: WindowId(4) },
            AppUpdateEvent::RequestTimer { timer: timer(1, 10, "t") },
        ])
    );
    assert!(updates.is_empty());
    assert_eq!(notifications.len(), 1);
    let action = handle.handle_user_event(UserEvent::Idle, &mut updates, &mut notifications);
    assert_eq!(
        action,
        UserAction::Idle(IdlePass { notify: vec!["n1"], process_update: vec![WindowId(4)] })
    );
    assert!(notifications.is_empty());
    assert_eq!(handle.windows.len(), 1);
}
