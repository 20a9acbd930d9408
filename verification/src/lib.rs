//! Windowing and input-event core of a desktop sketching application.
//!
//! The library owns the model of the set of live platform windows, normalizes
//! raw platform input into semantic application events, and drives a per-frame
//! update/redraw cycle under three scheduling policies (block-until-input,
//! block-until-timeout, continuous-poll).
//!
//! All platform work (window creation, rendering, menus, the native event
//! loop) is performed by collaborators outside this crate: the scheduler here
//! is a pure state machine that receives platform notifications as plain data
//! and returns the effects the collaborators must perform.

use vstd::prelude::*;

pub mod canvas;
pub mod context;
pub mod effect;
pub mod error;
pub mod event;
pub mod geometry;
pub mod key_code;
pub mod menu;
pub mod run;
pub mod window;

verus! {

/// The core's whole state: the window registry, the input context, and the
/// persistent frame state. The platform layer owns the native event loop and
/// collaborators and feeds notifications into [`Windows::dispatch`].
pub struct Windows {
    pub wm: window::WindowManager,
    pub ctx: context::Context,
    pub state: WinitPersistentState,
}

impl Windows {
    /// Wraps an initialized registry with a fresh input context and frame
    /// state.
    pub fn new(wm: window::WindowManager) -> (w: Windows)
        ensures
            w.wm == wm,
            w.ctx == context::Context::initial(),
            w.state == WinitPersistentState::initial(),
    {
        Windows { wm, ctx: context::Context::default(), state: WinitPersistentState::default() }
    }

    /// Checks that the registry holds a main window to start the
    /// application with.
    pub fn run(&self) -> (r: Result<(), error::WindowsError>)
        requires
            self.wm.wf(),
        ensures
            match r {
                Ok(u) => self.wm@.main_window_r() is Ok,
                Err(e) => self.wm@.main_window_r() == Err::<window::WindowRecord, error::WindowsError>(e),
            },
    {
        self.wm.run()
    }
}

/// Policy governing how long the scheduler blocks between ticks.
#[derive(Debug, Clone, Copy, PartialEq, Eq, Structural)]
pub enum FlowMode {
    /// Block indefinitely until the next notification.
    Wait,
    /// Block until a fixed future instant.
    WaitUntil,
    /// Sleep a bounded slice, then force the next tick.
    Poll,
}

/// State that persists between frames of the dispatch loop.
///
/// Created once at startup, mutated exclusively by the frame scheduler.
#[derive(Debug, Clone, Copy, PartialEq, Eq, Structural)]
pub struct WinitPersistentState {
    /// Whether the application is active (between resume and suspend signals).
    pub active: bool,
    /// Whether the event loop was started this frame because of a redraw request.
    pub redraw_request: bool,
    /// Whether the event loop was started this frame because a wait timeout fired.
    pub timeout_reached: bool,
    /// Whether a scheduled wait was cancelled by an intervening notification.
    pub wait_cancelled: bool,
    /// Clock reading (in milliseconds) at the last update pass.
    pub last_update: u64,
    /// The current control-flow policy.
    pub mode: FlowMode,
    /// Coalescing flag: set while cursor-moved notifications await the
    /// single per-tick mouse-move emission.
    pub cursor_moved: bool,
}

impl Default for WinitPersistentState {
    /// The state before the first notification: inactive, nothing pending,
    /// blocking control flow.
    fn default() -> (s: WinitPersistentState)
        ensures
            s == WinitPersistentState::initial(),
    {
        WinitPersistentState {
            active: false,
            redraw_request: false,
            timeout_reached: false,
            wait_cancelled: false,
            last_update: 0,
            mode: FlowMode::Wait,
            cursor_moved: false,
        }
    }
}

impl WinitPersistentState {
    /// The frame state at startup.
    pub open spec fn initial() -> WinitPersistentState {
        WinitPersistentState {
            active: false,
            redraw_request: false,
            timeout_reached: false,
            wait_cancelled: false,
            last_update: 0,
            mode: FlowMode::Wait,
            cursor_moved: false,
        }
    }
}

} // verus!
