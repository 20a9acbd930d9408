use oxdraw_core::context::Context;
use oxdraw_core::effect::Effect;
use oxdraw_core::error::WindowsError;
use oxdraw_core::event::{
    KeyboardModifiers, MouseButton, MouseEvent, MouseTouchEvent, ScrollDelta, SemanticEvent,
    TouchInputEvent, TouchPhase,
};
use oxdraw_core::geometry::{Point, Position, Size};
use oxdraw_core::key_code::{KeyCode, PlatformKey};
use oxdraw_core::menu::SubMenuKind;
use oxdraw_core::window::{BuiltWindow, PlatformProbe, WindowManager};

fn manager_with_main() -> WindowManager {
    // physical 1600x1200 at scale 2.0: logical size 800x600
    WindowManager::default()
        .with_main_window(
            PlatformProbe { has_monitor: true, has_video_mode: true },
            Some(BuiltWindow { id: 1, width: 1600, height: 1200, scale_milli: 2000 }),
        )
        .unwrap()
}

#[test]
fn render_reports_physical_size_and_scale() {
    let mut wm = manager_with_main();
    let mut ctx = Context::default();
    let effects = ctx.render(&mut wm, &1).unwrap();
    assert_eq!(
        effects,
        vec![Effect::Render { window_id: 1, width: 1600, height: 1200, scale_milli: 2000 }]
    );
}

#[test]
fn render_unknown_window_fails() {
    let mut wm = manager_with_main();
    let mut ctx = Context::default();
    assert!(matches!(ctx.render(&mut wm, &9), Err(WindowsError::WindowStore(9))));
}

#[test]
fn resize_reports_logical_size_to_renderer() {
    // logical 800x600 at scale 2.0: the renderer sees the same logical size
    let mut wm = manager_with_main();
    let mut ctx = Context::default();
    let effects = ctx.resize(&mut wm, &1, Size { width: 1600, height: 1200 }).unwrap();
    assert_eq!(
        effects,
        vec![
            Effect::RendererUpdate { window_id: 1, width: 800, height: 600 },
            Effect::RequestRedraw { window_id: 1 },
        ]
    );
    let rec = wm.window(&1).unwrap();
    assert_eq!((rec.width, rec.height), (1600, 1200));
}

#[test]
fn scale_factor_matching_logical_size_is_noop() {
    // current logical 800x600; proposed 1600x1200 at scale 2.0 is logical
    // 800x600 again: nothing is resized, no redraw is requested
    let mut wm = manager_with_main();
    let mut ctx = Context::default();
    let effects = ctx
        .scale_factor(&mut wm, &1, 2000, Size { width: 1600, height: 1200 })
        .unwrap();
    assert!(effects.is_empty());
}

#[test]
fn scale_factor_change_resizes_and_redraws() {
    // proposed 2400x1800 at scale 3.0 is logical 800x600... use a real change:
    // proposed 1600x1200 at scale 1.0 is logical 1600x1200
    let mut wm = manager_with_main();
    let mut ctx = Context::default();
    let effects = ctx
        .scale_factor(&mut wm, &1, 1000, Size { width: 1600, height: 1200 })
        .unwrap();
    assert_eq!(
        effects,
        vec![
            Effect::RendererUpdate { window_id: 1, width: 1600, height: 1200 },
            Effect::RequestRedraw { window_id: 1 },
        ]
    );
    let rec = wm.window(&1).unwrap();
    assert_eq!(rec.scale_milli, 1000);
}

#[test]
fn focused_takes_focus_once() {
    let mut wm = manager_with_main();
    let mut ctx = Context::default();
    let effects = ctx.focused(&mut wm, &1, true).unwrap();
    assert_eq!(effects, vec![Effect::FocusWindow { window_id: 1 }]);
    assert!(wm.is_current_window(&1));
    // already current and already focused: no new platform call
    let effects = ctx.focused(&mut wm, &1, true).unwrap();
    assert!(effects.is_empty());
}

#[test]
fn focused_unknown_window_fails_with_focus_error() {
    let mut wm = manager_with_main();
    let mut ctx = Context::default();
    assert!(matches!(ctx.focused(&mut wm, &9, true), Err(WindowsError::Focus(9))));
}

#[test]
fn key_input_emits_semantic_key_event() {
    let mut wm = manager_with_main();
    let mut ctx = Context::default();
    ctx.key_modifier(&wm, &1, &KeyboardModifiers {
        shift: true,
        control: false,
        alt: false,
        command: false,
    })
    .unwrap();
    let effects = ctx
        .key_input(&wm, &1, &PlatformKey::Character("a".to_string()), true, false)
        .unwrap();
    assert_eq!(
        effects,
        vec![Effect::Emit(SemanticEvent::Key(oxdraw_core::event::KeyEvent::Down(
            KeyCode::Character("a".to_string(), true),
            false,
        )))]
    );
}

#[test]
fn touch_positions_are_logical() {
    let mut wm = manager_with_main();
    let mut ctx = Context::default();
    // 100.0 physical pixels = 100_000 thousandths; at scale 2.0 logical 50.0
    let effects = ctx
        .touch(&wm, &1, TouchPhase::Started, Position { x: 100_000, y: 50_000 })
        .unwrap();
    assert_eq!(
        effects,
        vec![Effect::Emit(SemanticEvent::Touch(TouchInputEvent::Begin {
            id: 0,
            position: Point { x: 50_000, y: 25_000 },
        }))]
    );
}

#[test]
fn cursor_move_tracks_logical_position_and_emits_nothing() {
    let mut wm = manager_with_main();
    let mut ctx = Context::default();
    ctx.cursor_move(&wm, &1, Position { x: 200_000, y: 100_000 }).unwrap();
    assert_eq!(ctx.mouse_pos, Point { x: 100_000, y: 50_000 });
}

#[test]
fn mouse_wheel_emits_scroll() {
    let mut wm = manager_with_main();
    let mut ctx = Context::default();
    let effects = ctx
        .mouse_wheel(&wm, &1, ScrollDelta::Line(Point { x: 0, y: -3_000 }))
        .unwrap();
    assert_eq!(
        effects,
        vec![Effect::Emit(SemanticEvent::Mouse(MouseEvent::Scroll(Point { x: 0, y: -3_000 })))]
    );
}

#[test]
fn mouse_input_offers_context_menu_then_touch() {
    let mut wm = manager_with_main();
    let mut ctx = Context::default();
    ctx.cursor_move(&wm, &1, Position { x: 20_000, y: 40_000 }).unwrap();
    let effects = ctx.mouse_input(&wm, &1, &MouseTouchEvent::Down(MouseButton::Left)).unwrap();
    let pos = Point { x: 10_000, y: 20_000 };
    assert_eq!(
        effects,
        vec![
            Effect::ShowContextMenu { window_id: 1, kind: SubMenuKind::Custom, position: pos },
            Effect::Emit(SemanticEvent::Touch(TouchInputEvent::Begin { id: 0, position: pos })),
        ]
    );
}

#[test]
fn mouse_move_grab_transition_fires_once() {
    let mut wm = manager_with_main();
    let mut ctx = Context::default();
    ctx.set_grab_cursor(true);
    let effects = ctx.mouse_move(&wm, Point { x: 5_000, y: 0 }).unwrap();
    assert_eq!(effects.len(), 2);
    assert_eq!(effects[1], Effect::GrabCursor { window_id: 1 });
    // unchanged flag: the second movement issues no grab call
    let effects = ctx.mouse_move(&wm, Point { x: 6_000, y: 0 }).unwrap();
    assert_eq!(effects.len(), 1);
    assert!(matches!(effects[0], Effect::Emit(_)));
    // releasing: exactly one release call
    ctx.set_grab_cursor(false);
    let effects = ctx.mouse_move(&wm, Point { x: 7_000, y: 0 }).unwrap();
    assert_eq!(effects.len(), 2);
    assert_eq!(effects[1], Effect::ReleaseCursor { window_id: 1 });
}

#[test]
fn mouse_move_equal_position_is_dropped() {
    let mut wm = manager_with_main();
    let mut ctx = Context::default();
    // mouse position starts at the origin; a delta equal to it is ignored
    let effects = ctx.mouse_move(&wm, Point { x: 0, y: 0 }).unwrap();
    assert!(effects.is_empty());
}

#[test]
fn mouse_move_without_any_window_fails() {
    let wm = WindowManager::default();
    let mut ctx = Context::default();
    assert!(matches!(
        ctx.mouse_move(&wm, Point { x: 1, y: 1 }),
        Err(WindowsError::MainWindowId)
    ));
}

#[test]
fn update_targets_current_window_with_logical_size() {
    let mut wm = manager_with_main();
    let mut ctx = Context::default();
    let effects = ctx.update(&wm).unwrap();
    assert_eq!(
        effects,
        vec![
            Effect::RendererUpdate { window_id: 1, width: 800, height: 600 },
            Effect::RequestRedraw { window_id: 1 },
        ]
    );
}

#[test]
fn remove_drops_renderer_resources() {
    let mut wm = manager_with_main();
    let mut ctx = Context::default();
    let effects = ctx.remove(&mut wm, &1).unwrap();
    assert_eq!(effects, vec![Effect::RendererRemove { window_id: 1 }]);
    assert!(wm.is_empty());
}

#[test]
fn submenu_only_custom_shows_context_menu() {
    assert!(SubMenuKind::Custom.shows_context_menu());
    assert!(!SubMenuKind::Edit.shows_context_menu());
    assert!(!SubMenuKind::File.shows_context_menu());
    assert!(!SubMenuKind::Help.shows_context_menu());
    assert!(!SubMenuKind::Window.shows_context_menu());
    assert!(!SubMenuKind::View.shows_context_menu());
    assert!(!SubMenuKind::App.shows_context_menu());
}
