use oxdraw_core::error::WindowsError;
use oxdraw_core::geometry::Size;
use oxdraw_core::window::{
    BuiltWindow, PlatformProbe, WindowManager, WindowOptions, main_window_options,
};

fn probe_ok() -> PlatformProbe {
    PlatformProbe { has_monitor: true, has_video_mode: true }
}

fn built(id: u64, width: u32, height: u32, scale_milli: u32) -> BuiltWindow {
    BuiltWindow { id, width, height, scale_milli }
}

fn manager_with_main() -> WindowManager {
    WindowManager::default()
        .with_main_window(probe_ok(), Some(built(1, 1600, 1200, 2000)))
        .unwrap()
}

#[test]
fn with_main_window_registers_invisible_main() {
    let wm = manager_with_main();
    let rec = wm.main_window().unwrap();
    assert_eq!(rec.width, 1600);
    assert_eq!(rec.height, 1200);
    assert_eq!(rec.scale_milli, 2000);
    assert!(!rec.visible);
    assert!(!rec.focused);
    assert!(!wm.is_empty());
    assert!(wm.run().is_ok());
}

#[test]
fn with_main_window_fails_without_monitor() {
    let r = WindowManager::default().with_main_window(
        PlatformProbe { has_monitor: false, has_video_mode: false },
        Some(built(1, 100, 100, 1000)),
    );
    assert!(matches!(r, Err(WindowsError::NoMonitor)));
}

#[test]
fn with_main_window_fails_without_built_window() {
    let r = WindowManager::default().with_main_window(probe_ok(), None);
    assert!(matches!(r, Err(WindowsError::WindowBuild)));
}

#[test]
fn main_window_fails_when_never_initialized() {
    let wm = WindowManager::default();
    assert!(matches!(wm.main_window(), Err(WindowsError::MainWindowId)));
    assert!(matches!(wm.run(), Err(WindowsError::MainWindowId)));
    assert!(wm.is_empty());
}

#[test]
fn main_window_unaffected_by_later_creations() {
    let mut wm = manager_with_main();
    let opts = WindowOptions::default();
    let id2 = wm.create_window(&opts, probe_ok(), Some(built(2, 300, 200, 1000))).unwrap();
    let id3 = wm.create_window(&opts, probe_ok(), Some(built(3, 640, 480, 1000))).unwrap();
    assert_eq!(id2, 2);
    assert_eq!(id3, 3);
    let rec = wm.main_window().unwrap();
    assert_eq!(rec.width, 1600);
    assert_eq!(rec.height, 1200);
}

#[test]
fn create_window_fails_without_monitor() {
    let mut wm = manager_with_main();
    let opts = WindowOptions::default();
    let r = wm.create_window(
        &opts,
        PlatformProbe { has_monitor: false, has_video_mode: true },
        Some(built(2, 300, 200, 1000)),
    );
    assert!(matches!(r, Err(WindowsError::NoMonitor)));
    assert!(wm.window(&2).is_none());
}

#[test]
fn create_window_full_screen_needs_video_mode() {
    let mut wm = manager_with_main();
    let opts = WindowOptions {
        full_screen: true,
        ..WindowOptions::default()
    };
    let r = wm.create_window(
        &opts,
        PlatformProbe { has_monitor: true, has_video_mode: false },
        Some(built(2, 300, 200, 1000)),
    );
    assert!(matches!(r, Err(WindowsError::NoVideoMode)));
    let ok = wm.create_window(&opts, probe_ok(), Some(built(2, 300, 200, 1000)));
    assert_eq!(ok.unwrap(), 2);
}

#[test]
fn create_window_fails_when_platform_build_fails() {
    let mut wm = manager_with_main();
    let opts = WindowOptions::default();
    let r = wm.create_window(&opts, probe_ok(), None);
    assert!(matches!(r, Err(WindowsError::WindowBuild)));
}

#[test]
fn window_lookup_absent_is_none() {
    let wm = manager_with_main();
    assert!(wm.window(&1).is_some());
    assert!(wm.window(&99).is_none());
}

#[test]
fn remove_then_window_yields_absence() {
    let mut wm = manager_with_main();
    let opts = WindowOptions::default();
    wm.create_window(&opts, probe_ok(), Some(built(2, 300, 200, 1000))).unwrap();
    wm.remove(&2);
    assert!(wm.window(&2).is_none());
    assert!(wm.window(&1).is_some());
}

#[test]
fn remove_nonexistent_is_noop() {
    let mut wm = manager_with_main();
    wm.remove(&42);
    assert!(wm.window(&1).is_some());
    assert!(!wm.is_empty());
}

#[test]
fn remove_only_window_empties_registry() {
    let mut wm = manager_with_main();
    wm.remove(&1);
    assert!(wm.is_empty());
    assert!(matches!(wm.main_window(), Err(WindowsError::WindowStore(1))));
}

#[test]
fn current_window_falls_back_to_main_when_focus_never_set() {
    let wm = manager_with_main();
    let rec = wm.current_window().unwrap();
    assert_eq!(rec.width, 1600);
}

#[test]
fn current_window_returns_focused_window() {
    let mut wm = manager_with_main();
    let opts = WindowOptions::default();
    wm.create_window(&opts, probe_ok(), Some(built(2, 300, 200, 1000))).unwrap();
    wm.focus_window(2);
    assert!(wm.is_current_window(&2));
    assert!(!wm.is_current_window(&1));
    let rec = wm.current_window().unwrap();
    assert_eq!(rec.width, 300);
}

#[test]
fn current_window_falls_back_after_focused_window_removed() {
    let mut wm = manager_with_main();
    let opts = WindowOptions::default();
    wm.create_window(&opts, probe_ok(), Some(built(2, 300, 200, 1000))).unwrap();
    wm.focus_window(2);
    wm.remove(&2);
    // focus was cleared by the removal and is not reassigned
    assert!(!wm.is_current_window(&2));
    let rec = wm.current_window().unwrap();
    assert_eq!(rec.width, 1600);
}

#[test]
fn current_window_fails_when_even_main_is_absent() {
    let mut wm = manager_with_main();
    wm.remove(&1);
    assert!(matches!(wm.current_window(), Err(WindowsError::WindowStore(1))));
}

#[test]
fn removing_stale_focus_then_current_is_main() {
    let mut wm = manager_with_main();
    // focus an identifier that is not in the registry at all
    wm.focus_window(77);
    let rec = wm.current_window().unwrap();
    assert_eq!(rec.width, 1600);
}

#[test]
fn main_window_options_are_half_monitor_size() {
    let o = main_window_options(2560, 1440);
    assert_eq!(o.title, "Oxdraw");
    assert!(!o.full_screen);
    assert!(o.resizable);
    assert_eq!(o.size, Size { width: 1280, height: 720 });
}

#[test]
fn default_window_options() {
    let o = WindowOptions::default();
    assert_eq!(o.title, "oxdraw window");
    assert!(!o.full_screen);
    assert!(o.resizable);
    assert_eq!(o.size, Size { width: 400, height: 400 });
}

#[test]
fn error_messages_name_their_condition() {
    assert_eq!(WindowsError::MainWindowId.message(), "no main window id available");
    assert_eq!(WindowsError::WindowStore(3).message(), "unable to get window with window id");
    assert_eq!(WindowsError::NoMonitor.message(), "no monitor found");
}
