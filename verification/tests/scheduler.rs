use oxdraw_core::effect::{Effect, FlowCommand};
use oxdraw_core::event::{KeyboardModifiers, KeyEvent, MouseEvent, SemanticEvent};
use oxdraw_core::geometry::{Point, Position, Size};
use oxdraw_core::key_code::{KeyCode, PlatformKey};
use oxdraw_core::run::{Notification, StartCause, WindowNotification};
use oxdraw_core::window::{BuiltWindow, PlatformProbe, WindowManager};
use oxdraw_core::{FlowMode, Windows};

fn shell() -> Windows {
    // one main window: physical 1600x1200 at scale 2.0, logical 800x600
    let wm = WindowManager::default()
        .with_main_window(
            PlatformProbe { has_monitor: true, has_video_mode: true },
            Some(BuiltWindow { id: 1, width: 1600, height: 1200, scale_milli: 2000 }),
        )
        .unwrap();
    Windows::new(wm)
}

fn active_shell() -> Windows {
    let mut w = shell();
    let effects = w.dispatch(&Notification::Resumed, 0);
    assert!(effects.is_empty());
    w
}

fn window_event(event: WindowNotification) -> Notification {
    Notification::Window { window_id: 1, event }
}

#[test]
fn init_installs_menu_shows_main_window_and_sets_up_renderer() {
    let mut w = shell();
    let effects = w.dispatch(&Notification::NewEvents(StartCause::Init), 0);
    assert_eq!(
        effects,
        vec![
            Effect::InstallMenu { window_id: 1 },
            Effect::SetVisible { window_id: 1, visible: true },
            Effect::RendererSetup { window_id: 1, width: 1600, height: 1200 },
        ]
    );
    assert!(w.wm.window(&1).unwrap().visible);
}

#[test]
fn init_without_main_window_exits() {
    let mut w = Windows::new(WindowManager::default());
    let effects = w.dispatch(&Notification::NewEvents(StartCause::Init), 0);
    assert_eq!(effects, vec![Effect::Exit]);
}

#[test]
fn resized_at_scale_two_reports_same_logical_size_and_no_mouse_event() {
    // end-to-end: one main window of logical size 800x600; Resized(1600,1200)
    // at scale factor 2.0 reaches the renderer as logical 800x600, and no
    // mouse event is emitted
    let mut w = active_shell();
    let effects = w.dispatch(
        &window_event(WindowNotification::Resized(Size { width: 1600, height: 1200 })),
        0,
    );
    assert_eq!(
        effects,
        vec![
            Effect::RendererUpdate { window_id: 1, width: 800, height: 600 },
            Effect::RequestRedraw { window_id: 1 },
        ]
    );
    for e in &effects {
        assert!(!matches!(e, Effect::Emit(_)));
    }
}

#[test]
fn scale_factor_noop_issues_nothing() {
    let mut w = active_shell();
    let effects = w.dispatch(
        &window_event(WindowNotification::ScaleFactorChanged {
            scale_milli: 2000,
            size: Size { width: 1600, height: 1200 },
        }),
        0,
    );
    assert!(effects.is_empty());
}

#[test]
fn close_requested_for_only_window_exits() {
    // end-to-end: closing the only window empties the registry and the
    // scheduler exits
    let mut w = active_shell();
    let effects = w.dispatch(&window_event(WindowNotification::CloseRequested), 0);
    assert_eq!(
        effects,
        vec![Effect::RendererRemove { window_id: 1 }, Effect::Exit]
    );
    assert!(w.wm.is_empty());
}

#[test]
fn close_requested_with_windows_left_does_not_exit() {
    let mut w = active_shell();
    w.wm.create_window(
        &oxdraw_core::window::WindowOptions::default(),
        PlatformProbe { has_monitor: true, has_video_mode: true },
        Some(BuiltWindow { id: 2, width: 300, height: 200, scale_milli: 1000 }),
    )
    .unwrap();
    let effects = w.dispatch(&window_event(WindowNotification::CloseRequested), 0);
    assert_eq!(effects, vec![Effect::RendererRemove { window_id: 1 }]);
    assert!(!w.wm.is_empty());
}

#[test]
fn shift_a_keydown_yields_shifted_character_event() {
    // end-to-end: KeyDown of the "a" key with shift held becomes
    // KeyEvent::Down(Character("a", shift = true), repeat = false)
    let mut w = active_shell();
    let none = w.dispatch(
        &window_event(WindowNotification::ModifiersChanged(KeyboardModifiers {
            shift: true,
            control: false,
            alt: false,
            command: false,
        })),
        0,
    );
    assert!(none.is_empty());
    let effects = w.dispatch(
        &window_event(WindowNotification::KeyboardInput {
            key: PlatformKey::Character("a".to_string()),
            pressed: true,
            repeat: false,
        }),
        0,
    );
    assert_eq!(
        effects,
        vec![Effect::Emit(SemanticEvent::Key(KeyEvent::Down(
            KeyCode::Character("a".to_string(), true),
            false,
        )))]
    );
}

#[test]
fn cursor_moves_coalesce_into_one_mouse_move_per_tick() {
    // N cursor-moved notifications within one tick produce exactly one
    // semantic mouse-move, emitted when the queue clears
    let mut w = active_shell();
    let mut emitted = 0;
    for i in 0..5u32 {
        let effects = w.dispatch(
            &window_event(WindowNotification::CursorMoved(Position {
                x: 1_000 * (i + 1),
                y: 2_000,
            })),
            0,
        );
        assert!(effects.is_empty());
    }
    let effects = w.dispatch(&Notification::MainEventsCleared, 7);
    for e in &effects {
        if matches!(e, Effect::Emit(SemanticEvent::Mouse(MouseEvent::Move(_)))) {
            emitted += 1;
        }
    }
    assert_eq!(emitted, 1);
    // the last cursor position, in logical units at scale 2.0
    assert_eq!(
        effects[0],
        Effect::Emit(SemanticEvent::Mouse(MouseEvent::Move(Point { x: 2_500, y: 1_000 })))
    );
    // the flag is consumed: the next tick emits no mouse-move
    let effects = w.dispatch(&Notification::MainEventsCleared, 8);
    assert!(effects.is_empty());
}

#[test]
fn events_for_unknown_windows_are_dropped() {
    let mut w = active_shell();
    let effects = w.dispatch(
        &Notification::Window {
            window_id: 42,
            event: WindowNotification::Resized(Size { width: 10, height: 10 }),
        },
        0,
    );
    assert!(effects.is_empty());
}

#[test]
fn update_runs_only_when_redraw_or_timeout_pending() {
    let mut w = active_shell();
    // nothing pending: the tick ends without further work
    let effects = w.dispatch(&Notification::MainEventsCleared, 3);
    assert!(effects.is_empty());
    // a timeout makes the update run and records the timestamp
    let none = w.dispatch(&Notification::NewEvents(StartCause::ResumeTimeReached), 4);
    assert!(none.is_empty());
    let effects = w.dispatch(&Notification::MainEventsCleared, 5);
    assert_eq!(
        effects,
        vec![
            Effect::RendererUpdate { window_id: 1, width: 800, height: 600 },
            Effect::RequestRedraw { window_id: 1 },
        ]
    );
    assert_eq!(w.state.last_update, 5);
}

#[test]
fn update_skipped_while_suspended() {
    let mut w = active_shell();
    w.dispatch(&Notification::NewEvents(StartCause::ResumeTimeReached), 0);
    w.dispatch(&Notification::Suspended, 1);
    assert!(!w.state.active);
    let effects = w.dispatch(&Notification::MainEventsCleared, 2);
    assert!(effects.is_empty());
    w.dispatch(&Notification::Resumed, 3);
    assert!(w.state.active);
}

#[test]
fn redraw_requested_renders_the_window() {
    let mut w = active_shell();
    let effects = w.dispatch(&Notification::RedrawRequested { window_id: 1 }, 0);
    assert_eq!(
        effects,
        vec![Effect::Render { window_id: 1, width: 1600, height: 1200, scale_milli: 2000 }]
    );
    // a redraw for an unknown window is dropped, not fatal
    let effects = w.dispatch(&Notification::RedrawRequested { window_id: 9 }, 0);
    assert!(effects.is_empty());
}

#[test]
fn render_failure_is_fatal() {
    let mut w = active_shell();
    let effects = w.dispatch(&Notification::RenderFailed { window_id: 1 }, 0);
    assert_eq!(effects, vec![Effect::Exit]);
}

#[test]
fn tick_end_wait_mode_blocks() {
    let mut w = active_shell();
    assert_eq!(w.state.mode, FlowMode::Wait);
    let effects = w.dispatch(&Notification::RedrawEventsCleared, 0);
    assert_eq!(effects, vec![Effect::Flow(FlowCommand::Wait)]);
}

#[test]
fn tick_end_wait_until_skips_after_cancelled_wait() {
    let mut w = active_shell();
    w.state.mode = FlowMode::WaitUntil;
    let effects = w.dispatch(&Notification::RedrawEventsCleared, 0);
    assert_eq!(
        effects,
        vec![Effect::Flow(FlowCommand::WaitUntil { millis: 100 })]
    );
    // an intervening notification cancelled the wait: no new timeout this tick
    w.dispatch(&Notification::NewEvents(StartCause::WaitCancelled), 1);
    assert!(w.state.wait_cancelled);
    let effects = w.dispatch(&Notification::RedrawEventsCleared, 1);
    assert!(effects.is_empty());
}

#[test]
fn tick_end_poll_mode_sleeps_and_forces_redraw() {
    let mut w = active_shell();
    w.state.mode = FlowMode::Poll;
    let effects = w.dispatch(&Notification::RedrawEventsCleared, 0);
    assert_eq!(
        effects,
        vec![Effect::Flow(FlowCommand::PollAfterSleep { millis: 100 })]
    );
    assert!(w.state.redraw_request);
}

#[test]
fn zero_scale_factor_notification_is_dropped() {
    let mut w = active_shell();
    let effects = w.dispatch(
        &window_event(WindowNotification::ScaleFactorChanged {
            scale_milli: 0,
            size: Size { width: 100, height: 100 },
        }),
        0,
    );
    assert!(effects.is_empty());
    let rec = w.wm.window(&1).unwrap();
    assert_eq!(rec.scale_milli, 2000);
}

#[test]
fn destroyed_and_unknown_notifications_do_nothing() {
    let mut w = active_shell();
    assert!(w.dispatch(&window_event(WindowNotification::Destroyed), 0).is_empty());
    assert!(w.dispatch(&window_event(WindowNotification::Other), 0).is_empty());
    assert!(w.dispatch(&Notification::Other, 0).is_empty());
}

#[test]
fn touch_through_dispatch_is_logical() {
    let mut w = active_shell();
    let effects = w.dispatch(
        &window_event(WindowNotification::Touch {
            phase: oxdraw_core::event::TouchPhase::Ended,
            location: oxdraw_core::geometry::Position { x: 100_000, y: 0 },
        }),
        0,
    );
    assert_eq!(
        effects,
        vec![Effect::Emit(SemanticEvent::Touch(oxdraw_core::event::TouchInputEvent::End {
            id: 0,
            position: Point { x: 50_000, y: 0 },
        }))]
    );
}

#[test]
fn device_mouse_motion_reports_drag() {
    let mut w = active_shell();
    let effects = w.dispatch(&Notification::DeviceMouseMotion { delta: Point { x: 3, y: 4 } }, 0);
    assert_eq!(effects.len(), 1);
    assert!(matches!(effects[0], Effect::Emit(SemanticEvent::Touch(_))));
}
