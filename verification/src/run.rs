//! The frame scheduler: the top-level dispatch of the event loop.
//!
//! The native event loop lives in the platform layer; every platform
//! callback is translated into a [`Notification`] and fed to
//! [`Windows::dispatch`], which owns the control-flow mode, decides when a
//! frame update and a redraw occur, and returns the effects the platform
//! layer must perform. The whole transition is stated by the spec function
//! [`step`]; `dispatch` returns exactly the state and effects `step`
//! describes.
//!
//! Per tick: cursor-moved notifications only set a coalescing flag during
//! dispatch; when the platform reports the event queue cleared, exactly one
//! coalesced mouse-move event is emitted for the tick, and the update pass
//! runs only when a redraw request or a wait timeout is pending.

use vstd::prelude::*;

use crate::context::{
    Context, ctx_remove_spec, cursor_move_spec, focused_spec, key_input_spec, key_modifier_spec,
    mouse_input_spec, mouse_move_spec, mouse_wheel_spec, render_spec, resize_spec,
    scale_factor_spec, touch_spec, update_spec,
};
use crate::effect::{Effect, EffectV, FlowCommand, effects_v};
use crate::event::{
    KeyboardModifiers, MouseButton, MouseEvent, MouseTouchEvent, ScrollDelta, SemanticEvent,
    SemanticEventV, TouchPhase,
};
use crate::geometry::{Point, Position, Size, logical_px_sat};
use crate::key_code::{PlatformKey, PlatformKeyV};
use crate::window::{WindowRecord, WmV};
use crate::{FlowMode, WinitPersistentState, Windows};

verus! {

/// The wait slice of the block-until-timeout policy and the sleep slice of
/// the continuous-poll policy, in milliseconds.
pub const FLOW_INTERVAL_MILLIS: u64 = 100;

/// Why the platform woke the event loop.
#[derive(Clone, Copy, Debug, PartialEq, Eq, Structural)]
pub enum StartCause {
    /// The very first wake-up: the loop is about to start dispatching.
    Init,
    /// A scheduled wait was cut short by a notification.
    WaitCancelled,
    /// A scheduled wait timeout fired.
    ResumeTimeReached,
    /// The loop is polling continuously.
    Poll,
}

/// A per-window platform notification, as plain data.
#[derive(Clone, Debug, PartialEq, Eq)]
pub enum WindowNotification {
    /// The platform destroyed the window.
    Destroyed,
    /// The user asked to close the window.
    CloseRequested,
    /// The window was resized to this physical size.
    Resized(Size),
    /// The scale factor changed; the platform proposes this physical size
    /// at the new scale.
    ScaleFactorChanged { scale_milli: u32, size: Size },
    /// The window gained or lost input focus.
    Focused(bool),
    /// A touch at this location.
    Touch { phase: TouchPhase, location: Position },
    /// A key press or release, with modifiers already stripped off the key.
    KeyboardInput { key: PlatformKey, pressed: bool, repeat: bool },
    /// The keyboard modifier state changed.
    ModifiersChanged(KeyboardModifiers),
    /// The cursor moved to this location inside the window.
    CursorMoved(Position),
    /// The mouse wheel scrolled.
    MouseWheel(ScrollDelta),
    /// A mouse button was pressed or released.
    MouseInput { button: MouseButton, pressed: bool },
    /// Any other per-window notification; ignored.
    Other,
}

/// The mathematical value of a [`WindowNotification`].
pub enum WindowNotificationV {
    Destroyed,
    CloseRequested,
    Resized(Size),
    ScaleFactorChanged { scale_milli: u32, size: Size },
    Focused(bool),
    Touch { phase: TouchPhase, location: Position },
    KeyboardInput { key: PlatformKeyV, pressed: bool, repeat: bool },
    ModifiersChanged(KeyboardModifiers),
    CursorMoved(Position),
    MouseWheel(ScrollDelta),
    MouseInput { button: MouseButton, pressed: bool },
    Other,
}

impl View for WindowNotification {
    type V = WindowNotificationV;

    open spec fn view(&self) -> WindowNotificationV {
        match self {
            WindowNotification::Destroyed => WindowNotificationV::Destroyed,
            WindowNotification::CloseRequested => WindowNotificationV::CloseRequested,
            WindowNotification::Resized(size) => WindowNotificationV::Resized(*size),
            WindowNotification::ScaleFactorChanged { scale_milli, size } =>
                WindowNotificationV::ScaleFactorChanged {
                scale_milli: *scale_milli,
                size: *size,
            },
            WindowNotification::Focused(focus) => WindowNotificationV::Focused(*focus),
            WindowNotification::Touch { phase, location } => WindowNotificationV::Touch {
                phase: *phase,
                location: *location,
            },
            WindowNotification::KeyboardInput { key, pressed, repeat } =>
                WindowNotificationV::KeyboardInput {
                key: key@,
                pressed: *pressed,
                repeat: *repeat,
            },
            WindowNotification::ModifiersChanged(m) => WindowNotificationV::ModifiersChanged(*m),
            WindowNotification::CursorMoved(p) => WindowNotificationV::CursorMoved(*p),
            WindowNotification::MouseWheel(d) => WindowNotificationV::MouseWheel(*d),
            WindowNotification::MouseInput { button, pressed } => WindowNotificationV::MouseInput {
                button: *button,
                pressed: *pressed,
            },
            WindowNotification::Other => WindowNotificationV::Other,
        }
    }
}

/// A platform notification, as plain data. The platform layer also reports
/// collaborator outcomes the scheduler must react to (`RenderFailed`,
/// `InitFailed`).
#[derive(Clone, Debug, PartialEq, Eq)]
pub enum Notification {
    /// The loop woke up; says why.
    NewEvents(StartCause),
    /// A per-window notification.
    Window { window_id: u64, event: WindowNotification },
    /// Device-level raw mouse motion (the drag path), independent of any
    /// window, in thousandths of a pixel.
    DeviceMouseMotion { delta: Point },
    /// The application was suspended; per-tick work stops.
    Suspended,
    /// The application resumed.
    Resumed,
    /// All pending notifications of the tick were dispatched.
    MainEventsCleared,
    /// The platform says this window is due to repaint.
    RedrawRequested { window_id: u64 },
    /// All redraws of the tick were processed; the tick ends.
    RedrawEventsCleared,
    /// The render collaborator failed on this window; the renderer is
    /// assumed unrecoverable, so the application exits.
    RenderFailed { window_id: u64 },
    /// The initialization effects could not be performed; fatal.
    InitFailed,
    /// Any other notification; ignored.
    Other,
}

/// The mathematical value of a [`Notification`].
pub enum NotificationV {
    NewEvents(StartCause),
    Window { window_id: u64, event: WindowNotificationV },
    DeviceMouseMotion { delta: Point },
    Suspended,
    Resumed,
    MainEventsCleared,
    RedrawRequested { window_id: u64 },
    RedrawEventsCleared,
    RenderFailed { window_id: u64 },
    InitFailed,
    Other,
}

impl View for Notification {
    type V = NotificationV;

    open spec fn view(&self) -> NotificationV {
        match self {
            Notification::NewEvents(cause) => NotificationV::NewEvents(*cause),
            Notification::Window { window_id, event } => NotificationV::Window {
                window_id: *window_id,
                event: event@,
            },
            Notification::DeviceMouseMotion { delta } => NotificationV::DeviceMouseMotion {
                delta: *delta,
            },
            Notification::Suspended => NotificationV::Suspended,
            Notification::Resumed => NotificationV::Resumed,
            Notification::MainEventsCleared => NotificationV::MainEventsCleared,
            Notification::RedrawRequested { window_id } => NotificationV::RedrawRequested {
                window_id: *window_id,
            },
            Notification::RedrawEventsCleared => NotificationV::RedrawEventsCleared,
            Notification::RenderFailed { window_id } => NotificationV::RenderFailed {
                window_id: *window_id,
            },
            Notification::InitFailed => NotificationV::InitFailed,
            Notification::Other => NotificationV::Other,
        }
    }
}

/// The mathematical value of the core's whole state.
pub struct WindowsV {
    pub wm: WmV,
    pub ctx: Context,
    pub state: WinitPersistentState,
}

impl View for Windows {
    type V = WindowsV;

    open spec fn view(&self) -> WindowsV {
        WindowsV { wm: self.wm@, ctx: self.ctx, state: self.state }
    }
}

/// What one dispatch leaves behind: the next state and the effects the
/// platform layer must perform, in order.
pub struct StepOut {
    pub s: WindowsV,
    pub effects: Seq<EffectV>,
}

/// What the loop's first wake-up does: marks the frame state ready, then
/// installs the menu on the main window, makes it visible, and initializes
/// its render surface. If there is no main window, the loop exits without
/// entering the dispatch phase.
pub open spec fn step_init(s: WindowsV, st: WinitPersistentState) -> StepOut {
    match s.wm.main {
        Some(mid) => if s.wm.has(mid) {
            let rec = s.wm.rec(mid);
            StepOut {
                s: WindowsV {
                    wm: s.wm.insert_spec(mid, WindowRecord { visible: true, ..rec }),
                    ctx: s.ctx,
                    state: st,
                },
                effects: seq![
                    EffectV::InstallMenu { window_id: mid },
                    EffectV::SetVisible { window_id: mid, visible: true },
                    EffectV::RendererSetup { window_id: mid, width: rec.width, height: rec.height },
                ],
            }
        } else {
            StepOut {
                s: WindowsV { wm: s.wm, ctx: s.ctx, state: st },
                effects: seq![EffectV::Exit],
            }
        },
        None => StepOut {
            s: WindowsV { wm: s.wm, ctx: s.ctx, state: st },
            effects: seq![EffectV::Exit],
        },
    }
}

/// What a wake-up notification does to the frame state.
pub open spec fn step_new_events(s: WindowsV, cause: StartCause) -> StepOut {
    match cause {
        StartCause::Init => step_init(
            s,
            WinitPersistentState { wait_cancelled: false, ..s.state },
        ),
        StartCause::WaitCancelled => StepOut {
            s: WindowsV {
                wm: s.wm,
                ctx: s.ctx,
                state: WinitPersistentState {
                    wait_cancelled: s.state.mode == FlowMode::WaitUntil,
                    ..s.state
                },
            },
            effects: Seq::empty(),
        },
        StartCause::ResumeTimeReached => StepOut {
            s: WindowsV {
                wm: s.wm,
                ctx: s.ctx,
                state: WinitPersistentState {
                    timeout_reached: true,
                    wait_cancelled: false,
                    ..s.state
                },
            },
            effects: Seq::empty(),
        },
        StartCause::Poll => StepOut {
            s: WindowsV {
                wm: s.wm,
                ctx: s.ctx,
                state: WinitPersistentState { wait_cancelled: false, ..s.state },
            },
            effects: Seq::empty(),
        },
    }
}

/// What a per-window notification does. A notification for an identifier
/// absent from the registry is dropped whole; a lookup failure inside an
/// operation likewise drops only that notification.
pub open spec fn step_window_event(s: WindowsV, id: u64, ev: WindowNotificationV) -> StepOut {
    if !s.wm.has(id) {
        StepOut { s, effects: Seq::empty() }
    } else {
        match ev {
            WindowNotificationV::Destroyed => StepOut { s, effects: Seq::empty() },
            WindowNotificationV::CloseRequested => {
                let o = ctx_remove_spec(s.ctx, s.wm, id);
                let effects = if o.wm.is_empty() {
                    o.effects.push(EffectV::Exit)
                } else {
                    o.effects
                };
                StepOut { s: WindowsV { wm: o.wm, ctx: o.ctx, state: s.state }, effects }
            },
            WindowNotificationV::Resized(size) => {
                let o = resize_spec(s.ctx, s.wm, id, size);
                StepOut { s: WindowsV { wm: o.wm, ctx: o.ctx, state: s.state }, effects: o.effects }
            },
            WindowNotificationV::ScaleFactorChanged { scale_milli, size } => {
                if scale_milli == 0 {
                    // a zero scale factor is malformed; the notification is dropped
                    StepOut { s, effects: Seq::empty() }
                } else {
                    let o = scale_factor_spec(s.ctx, s.wm, id, scale_milli, size);
                    StepOut {
                        s: WindowsV { wm: o.wm, ctx: o.ctx, state: s.state },
                        effects: o.effects,
                    }
                }
            },
            WindowNotificationV::Focused(focus) => {
                let o = focused_spec(s.ctx, s.wm, id, focus);
                StepOut { s: WindowsV { wm: o.wm, ctx: o.ctx, state: s.state }, effects: o.effects }
            },
            WindowNotificationV::Touch { phase, location } => {
                let o = touch_spec(s.ctx, s.wm, id, phase, location);
                StepOut { s: WindowsV { wm: o.wm, ctx: o.ctx, state: s.state }, effects: o.effects }
            },
            WindowNotificationV::KeyboardInput { key, pressed, repeat } => {
                let o = key_input_spec(s.ctx, s.wm, id, key, pressed, repeat);
                StepOut { s: WindowsV { wm: o.wm, ctx: o.ctx, state: s.state }, effects: o.effects }
            },
            WindowNotificationV::ModifiersChanged(m) => {
                let o = key_modifier_spec(s.ctx, s.wm, id, m);
                StepOut {
                    s: WindowsV { wm: s.wm, ctx: o.0, state: s.state },
                    effects: Seq::empty(),
                }
            },
            WindowNotificationV::CursorMoved(position) => {
                // only the coalescing flag is set here; the single semantic
                // mouse-move of the tick is emitted when the queue clears
                let o = cursor_move_spec(s.ctx, s.wm, id, position);
                StepOut {
                    s: WindowsV {
                        wm: s.wm,
                        ctx: o.0,
                        state: WinitPersistentState { cursor_moved: true, ..s.state },
                    },
                    effects: Seq::empty(),
                }
            },
            WindowNotificationV::MouseWheel(delta) => {
                let o = mouse_wheel_spec(s.ctx, s.wm, id, delta);
                StepOut { s: WindowsV { wm: o.wm, ctx: o.ctx, state: s.state }, effects: o.effects }
            },
            WindowNotificationV::MouseInput { button, pressed } => {
                let ev = if pressed {
                    MouseTouchEvent::Down(button)
                } else {
                    MouseTouchEvent::Up(button)
                };
                let o = mouse_input_spec(s.ctx, s.wm, id, ev);
                StepOut { s: WindowsV { wm: o.wm, ctx: o.ctx, state: s.state }, effects: o.effects }
            },
            WindowNotificationV::Other => StepOut { s, effects: Seq::empty() },
        }
    }
}

/// What the end of the dispatch phase does: while inactive nothing happens;
/// otherwise the coalesced mouse move of the tick (if any) is emitted
/// exactly once, and — only when a redraw request or a timeout is pending —
/// the update timestamp is recorded and the per-frame update runs.
pub open spec fn step_main_events_cleared(s: WindowsV, now: u64) -> StepOut {
    if !s.state.active {
        StepOut { s, effects: Seq::empty() }
    } else {
        let moved = s.state.cursor_moved;
        let ctx1 = if moved {
            Context { has_rendered: true, ..s.ctx }
        } else {
            s.ctx
        };
        let st1 = if moved {
            WinitPersistentState { cursor_moved: false, ..s.state }
        } else {
            s.state
        };
        let cursor_effects: Seq<EffectV> = if moved {
            seq![EffectV::Emit(SemanticEventV::Mouse(MouseEvent::Move(s.ctx.mouse_pos)))]
        } else {
            Seq::empty()
        };
        if !s.state.redraw_request && !s.state.timeout_reached {
            StepOut {
                s: WindowsV { wm: s.wm, ctx: ctx1, state: st1 },
                effects: cursor_effects,
            }
        } else {
            let st2 = WinitPersistentState { last_update: now, ..st1 };
            let o = update_spec(ctx1, s.wm);
            StepOut {
                s: WindowsV { wm: s.wm, ctx: o.ctx, state: st2 },
                effects: cursor_effects + o.effects,
            }
        }
    }
}

/// What the end of a tick does: the next wait policy is chosen from the
/// control-flow mode. Under `WaitUntil` no new timeout is scheduled if the
/// previous wait was already cancelled this tick; under `Poll` the next tick
/// proceeds as if a redraw were requested.
pub open spec fn step_tick_end(s: WindowsV) -> StepOut {
    match s.state.mode {
        FlowMode::Wait => StepOut {
            s,
            effects: seq![EffectV::Flow(FlowCommand::Wait)],
        },
        FlowMode::WaitUntil => {
            if !s.state.wait_cancelled {
                StepOut {
                    s,
                    effects: seq![
                        EffectV::Flow(FlowCommand::WaitUntil { millis: FLOW_INTERVAL_MILLIS }),
                    ],
                }
            } else {
                StepOut { s, effects: Seq::empty() }
            }
        },
        FlowMode::Poll => StepOut {
            s: WindowsV {
                wm: s.wm,
                ctx: s.ctx,
                state: WinitPersistentState { redraw_request: true, ..s.state },
            },
            effects: seq![
                EffectV::Flow(FlowCommand::PollAfterSleep { millis: FLOW_INTERVAL_MILLIS }),
            ],
        },
    }
}

/// The scheduler's whole transition: the state after dispatching one
/// notification, and the effects the platform layer performs, in order.
/// `now` is the caller's clock reading in milliseconds.
pub open spec fn step(s: WindowsV, n: NotificationV, now: u64) -> StepOut {
    match n {
        NotificationV::NewEvents(cause) => step_new_events(s, cause),
        NotificationV::Window { window_id, event } => step_window_event(s, window_id, event),
        NotificationV::DeviceMouseMotion { delta } => {
            let o = mouse_move_spec(s.ctx, s.wm, delta);
            StepOut { s: WindowsV { wm: o.wm, ctx: o.ctx, state: s.state }, effects: o.effects }
        },
        NotificationV::Suspended => StepOut {
            s: WindowsV {
                wm: s.wm,
                ctx: s.ctx,
                state: WinitPersistentState { active: false, ..s.state },
            },
            effects: Seq::empty(),
        },
        NotificationV::Resumed => StepOut {
            s: WindowsV {
                wm: s.wm,
                ctx: s.ctx,
                state: WinitPersistentState { active: true, ..s.state },
            },
            effects: Seq::empty(),
        },
        NotificationV::MainEventsCleared => step_main_events_cleared(s, now),
        NotificationV::RedrawRequested { window_id } => {
            let o = render_spec(s.ctx, s.wm, window_id);
            StepOut { s: WindowsV { wm: o.wm, ctx: o.ctx, state: s.state }, effects: o.effects }
        },
        NotificationV::RedrawEventsCleared => step_tick_end(s),
        NotificationV::RenderFailed { window_id } => StepOut {
            s,
            effects: seq![EffectV::Exit],
        },
        NotificationV::InitFailed => StepOut { s, effects: seq![EffectV::Exit] },
        NotificationV::Other => StepOut { s, effects: Seq::empty() },
    }
}

/// The state and the concatenated effects after dispatching a whole
/// sequence of notifications.
pub open spec fn run_steps(s: WindowsV, ns: Seq<NotificationV>, now: u64) -> (WindowsV, Seq<
    EffectV,
>)
    decreases ns.len(),
{
    if ns.len() == 0 {
        (s, Seq::empty())
    } else {
        let o = step(s, ns[0], now);
        let rest = run_steps(o.s, ns.drop_first(), now);
        (rest.0, o.effects + rest.1)
    }
}

/// The number of semantic mouse-move events in a list of effects.
pub open spec fn count_mouse_moves(es: Seq<EffectV>) -> int
    decreases es.len(),
{
    if es.len() == 0 {
        0
    } else {
        count_mouse_moves(es.drop_last()) + if es.last() matches EffectV::Emit(
            SemanticEventV::Mouse(MouseEvent::Move(_)),
        ) {
            1int
        } else {
            0int
        }
    }
}

/// Whether a notification is a cursor movement inside a window the registry
/// holds.
pub open spec fn is_cursor_moved_for(n: NotificationV, wm: WmV) -> bool {
    match n {
        NotificationV::Window { window_id, event } => match event {
            WindowNotificationV::CursorMoved(p) => wm.has(window_id),
            _ => false,
        },
        _ => false,
    }
}

/// Dispatching any run of cursor-moved notifications emits no effects at
/// all — in particular no semantic mouse event — and only sets the
/// coalescing flag (and moves the tracked cursor position).
pub proof fn lemma_cursor_moves_emit_nothing(s: WindowsV, ns: Seq<NotificationV>, now: u64)
    requires
        forall|i: int| 0 <= i < ns.len() ==> is_cursor_moved_for(#[trigger] ns[i], s.wm),
    ensures
        ({
            let (s2, es) = run_steps(s, ns, now);
            &&& es == Seq::<EffectV>::empty()
            &&& s2.wm == s.wm
            &&& s2.state == (WinitPersistentState {
                cursor_moved: s.state.cursor_moved || ns.len() > 0,
                ..s.state
            })
        }),
    decreases ns.len(),
{
    if ns.len() == 0 {
        assert(s.state == (WinitPersistentState { cursor_moved: s.state.cursor_moved, ..s.state }));
    } else {
        let o = step(s, ns[0], now);
        assert(is_cursor_moved_for(ns[0], s.wm));
        assert(o.effects =~= Seq::<EffectV>::empty());
        assert forall|i: int| 0 <= i < ns.drop_first().len() implies is_cursor_moved_for(
            #[trigger] ns.drop_first()[i],
            o.s.wm,
        ) by {
            assert(ns.drop_first()[i] == ns[i + 1]);
        }
        lemma_cursor_moves_emit_nothing(o.s, ns.drop_first(), now);
        let (s2, es) = run_steps(s, ns, now);
        assert(es =~= Seq::<EffectV>::empty());
    }
}

/// Coalescing: any number of consecutive cursor-moved notifications within
/// a single tick produce no semantic mouse-move while they are dispatched,
/// and the end of the dispatch phase then emits exactly one semantic
/// mouse-move for the whole tick.
pub proof fn lemma_cursor_coalescing(s: WindowsV, ns: Seq<NotificationV>, now: u64)
    requires
        ns.len() > 0,
        forall|i: int| 0 <= i < ns.len() ==> is_cursor_moved_for(#[trigger] ns[i], s.wm),
        s.state.active,
    ensures
        ({
            let (s2, es) = run_steps(s, ns, now);
            &&& count_mouse_moves(es) == 0
            &&& count_mouse_moves(step(s2, NotificationV::MainEventsCleared, now).effects) == 1
        }),
{
    lemma_cursor_moves_emit_nothing(s, ns, now);
    let (s2, es) = run_steps(s, ns, now);
    let o = step(s2, NotificationV::MainEventsCleared, now);
    let cursor_effects: Seq<EffectV> = seq![
        EffectV::Emit(SemanticEventV::Mouse(MouseEvent::Move(s2.ctx.mouse_pos))),
    ];
    assert(cursor_effects.drop_last() =~= Seq::<EffectV>::empty());
    assert(count_mouse_moves(cursor_effects.drop_last()) == 0);
    assert(cursor_effects.last() == EffectV::Emit(
        SemanticEventV::Mouse(MouseEvent::Move(s2.ctx.mouse_pos)),
    ));
    assert(count_mouse_moves(cursor_effects) == 1);
    if !s2.state.redraw_request && !s2.state.timeout_reached {
        assert(o.effects == cursor_effects);
    } else {
        let u = update_spec(Context { has_rendered: true, ..s2.ctx }, s2.wm);
        lemma_update_no_mouse_moves(Context { has_rendered: true, ..s2.ctx }, s2.wm);
        lemma_count_mouse_moves_concat(cursor_effects, u.effects);
        assert(o.effects == cursor_effects + u.effects);
    }
}

/// The per-frame update hands nothing to the event consumer: its effects
/// contain no semantic mouse-move.
proof fn lemma_update_no_mouse_moves(ctx: Context, wm: WmV)
    ensures
        count_mouse_moves(update_spec(ctx, wm).effects) == 0,
{
    let o = update_spec(ctx, wm);
    match wm.current_entry_r() {
        Err(_) => {},
        Ok(entry) => {
            let cid = entry.0;
            let r = entry.1;
            let e0 = EffectV::RendererUpdate {
                window_id: cid,
                width: logical_px_sat(r.width as int, r.scale_milli as int) as u32,
                height: logical_px_sat(r.height as int, r.scale_milli as int) as u32,
            };
            let e1 = EffectV::RequestRedraw { window_id: cid };
            assert(o.effects =~= seq![e0, e1]);
            assert(seq![e0, e1].last() == e1);
            assert(seq![e0, e1].drop_last() =~= seq![e0]);
            assert(seq![e0].drop_last() =~= Seq::<EffectV>::empty());
            assert(seq![e0].last() == e0);
            assert(count_mouse_moves(seq![e0].drop_last()) == 0);
            assert(count_mouse_moves(seq![e0]) == 0);
            assert(count_mouse_moves(seq![e0, e1]) == 0);
        },
    }
}

proof fn lemma_count_mouse_moves_concat(a: Seq<EffectV>, b: Seq<EffectV>)
    ensures
        count_mouse_moves(a + b) == count_mouse_moves(a) + count_mouse_moves(b),
    decreases b.len(),
{
    if b.len() == 0 {
        assert(a + b =~= a);
    } else {
        assert((a + b).drop_last() =~= a + b.drop_last());
        assert((a + b).last() == b.last());
        lemma_count_mouse_moves_concat(a, b.drop_last());
    }
}

/// A close request for the only window present empties the registry and
/// makes the scheduler exit: the effects end with the exit request, after
/// the render collaborator is told to drop the window's resources.
pub proof fn lemma_close_last_window_exits(s: WindowsV, id: u64, now: u64)
    requires
        s.wm.has(id),
        forall|j: u64| #[trigger] s.wm.has(j) ==> j == id,
    ensures
        ({
            let o = step(
                s,
                NotificationV::Window { window_id: id, event: WindowNotificationV::CloseRequested },
                now,
            );
            &&& o.s.wm.is_empty()
            &&& o.effects == seq![EffectV::RendererRemove { window_id: id }, EffectV::Exit]
        }),
{
    let o = ctx_remove_spec(s.ctx, s.wm, id);
    assert forall|k: u64| #[trigger] o.wm.map.contains_key(k) implies false by {
        assert(s.wm.has(k));
    }
    assert(o.wm.map =~= Map::<u64, WindowRecord>::empty());
    assert(seq![EffectV::RendererRemove { window_id: id }].push(EffectV::Exit) =~= seq![
        EffectV::RendererRemove { window_id: id },
        EffectV::Exit,
    ]);
}

impl Windows {
    /// Dispatches one platform notification and returns the effects the
    /// platform layer must perform, in order: exactly what [`step`] states.
    /// `now_millis` is the caller's clock reading.
    pub fn dispatch(&mut self, notification: &Notification, now_millis: u64) -> (out: Vec<Effect>)
        requires
            old(self).wm.wf(),
        ensures
            final(self).wm.wf(),
            ({
                let o = step(old(self)@, notification@, now_millis);
                final(self)@ == o.s && effects_v(out@) == o.effects
            }),
    {
        match notification {
            Notification::NewEvents(cause) => self.dispatch_new_events(*cause),
            Notification::Window { window_id, event } => self.dispatch_window_event(
                window_id,
                event,
            ),
            Notification::DeviceMouseMotion { delta } => {
                match self.ctx.mouse_move(&self.wm, *delta) {
                    Ok(v) => v,
                    Err(_) => {
                        let out: Vec<Effect> = Vec::new();
                        proof {
                            assert(effects_v(out@) =~= Seq::<EffectV>::empty());
                        }
                        out
                    },
                }
            },
            Notification::Suspended => {
                self.state.active = false;
                let out: Vec<Effect> = Vec::new();
                proof {
                    assert(effects_v(out@) =~= Seq::<EffectV>::empty());
                }
                out
            },
            Notification::Resumed => {
                self.state.active = true;
                let out: Vec<Effect> = Vec::new();
                proof {
                    assert(effects_v(out@) =~= Seq::<EffectV>::empty());
                }
                out
            },
            Notification::MainEventsCleared => self.dispatch_main_events_cleared(now_millis),
            Notification::RedrawRequested { window_id } => {
                match self.ctx.render(&self.wm, window_id) {
                    Ok(v) => v,
                    Err(_) => {
                        let out: Vec<Effect> = Vec::new();
                        proof {
                            assert(effects_v(out@) =~= Seq::<EffectV>::empty());
                        }
                        out
                    },
                }
            },
            Notification::RedrawEventsCleared => {
                let mut out: Vec<Effect> = Vec::new();
                match self.state.mode {
                    FlowMode::Wait => {
                        out.push(Effect::Flow(FlowCommand::Wait));
                    },
                    FlowMode::WaitUntil => {
                        if !self.state.wait_cancelled {
                            out.push(
                                Effect::Flow(
                                    FlowCommand::WaitUntil { millis: FLOW_INTERVAL_MILLIS },
                                ),
                            );
                        }
                    },
                    FlowMode::Poll => {
                        out.push(
                            Effect::Flow(FlowCommand::PollAfterSleep { millis: FLOW_INTERVAL_MILLIS }),
                        );
                        self.state.redraw_request = true;
                    },
                }
                proof {
                    assert(effects_v(out@) =~= step(old(self)@, notification@, now_millis).effects);
                }
                out
            },
            Notification::RenderFailed { window_id } => {
                let mut out: Vec<Effect> = Vec::new();
                out.push(Effect::Exit);
                proof {
                    assert(effects_v(out@) =~= seq![EffectV::Exit]);
                }
                out
            },
            Notification::InitFailed => {
                let mut out: Vec<Effect> = Vec::new();
                out.push(Effect::Exit);
                proof {
                    assert(effects_v(out@) =~= seq![EffectV::Exit]);
                }
                out
            },
            Notification::Other => {
                let out: Vec<Effect> = Vec::new();
                proof {
                    assert(effects_v(out@) =~= Seq::<EffectV>::empty());
                }
                out
            },
        }
    }

    /// Dispatches a wake-up notification; see [`step_new_events`].
    fn dispatch_new_events(&mut self, cause: StartCause) -> (out: Vec<Effect>)
        requires
            old(self).wm.wf(),
        ensures
            final(self).wm.wf(),
            ({
                let o = step_new_events(old(self)@, cause);
                final(self)@ == o.s && effects_v(out@) == o.effects
            }),
    {
        match cause {
            StartCause::Init => {
                self.state.wait_cancelled = false;
                let mut out: Vec<Effect> = Vec::new();
                match self.wm.main_window_id() {
                    None => {
                        out.push(Effect::Exit);
                    },
                    Some(mid) => {
                        match self.wm.window(&mid) {
                            None => {
                                out.push(Effect::Exit);
                            },
                            Some(rec) => {
                                self.wm.update_record(mid, WindowRecord { visible: true, ..rec });
                                out.push(Effect::InstallMenu { window_id: mid });
                                out.push(Effect::SetVisible { window_id: mid, visible: true });
                                out.push(
                                    Effect::RendererSetup {
                                        window_id: mid,
                                        width: rec.width,
                                        height: rec.height,
                                    },
                                );
                            },
                        }
                    },
                }
                proof {
                    assert(effects_v(out@) =~= step_new_events(old(self)@, cause).effects);
                }
                out
            },
            StartCause::WaitCancelled => {
                self.state.wait_cancelled = match self.state.mode {
                    FlowMode::WaitUntil => true,
                    _ => false,
                };
                let out: Vec<Effect> = Vec::new();
                proof {
                    assert(effects_v(out@) =~= Seq::<EffectV>::empty());
                }
                out
            },
            StartCause::ResumeTimeReached => {
                self.state.timeout_reached = true;
                self.state.wait_cancelled = false;
                let out: Vec<Effect> = Vec::new();
                proof {
                    assert(effects_v(out@) =~= Seq::<EffectV>::empty());
                }
                out
            },
            StartCause::Poll => {
                self.state.wait_cancelled = false;
                let out: Vec<Effect> = Vec::new();
                proof {
                    assert(effects_v(out@) =~= Seq::<EffectV>::empty());
                }
                out
            },
        }
    }

    /// Dispatches the end of the dispatch phase; see
    /// [`step_main_events_cleared`].
    fn dispatch_main_events_cleared(&mut self, now_millis: u64) -> (out: Vec<Effect>)
        requires
            old(self).wm.wf(),
        ensures
            final(self).wm.wf(),
            ({
                let o = step_main_events_cleared(old(self)@, now_millis);
                final(self)@ == o.s && effects_v(out@) == o.effects
            }),
    {
        if !self.state.active {
            let out: Vec<Effect> = Vec::new();
            proof {
                assert(effects_v(out@) =~= Seq::<EffectV>::empty());
            }
            return out;
        }
        let mut out: Vec<Effect> = Vec::new();
        if self.state.cursor_moved {
            let ev = MouseEvent::Move(self.ctx.mouse_pos);
            self.ctx.process_mouse_event(&ev);
            out.push(Effect::Emit(SemanticEvent::Mouse(ev)));
            self.state.cursor_moved = false;
        }
        if !self.state.redraw_request && !self.state.timeout_reached {
            proof {
                assert(effects_v(out@) =~= step_main_events_cleared(old(self)@, now_millis).effects);
            }
            return out;
        }
        self.state.last_update = now_millis;
        let mut v = match self.ctx.update(&self.wm) {
            Ok(v) => v,
            Err(_) => Vec::new(),
        };
        let ghost out_before = out@;
        let ghost v_snap = v@;
        out.append(&mut v);
        proof {
            assert(effects_v(out@) =~= effects_v(out_before) + effects_v(v_snap));
            assert(effects_v(out@) =~= step_main_events_cleared(old(self)@, now_millis).effects);
        }
        out
    }

    /// Dispatches one per-window notification; see [`step_window_event`].
    fn dispatch_window_event(&mut self, window_id: &u64, event: &WindowNotification) -> (out: Vec<
        Effect,
    >)
        requires
            old(self).wm.wf(),
        ensures
            final(self).wm.wf(),
            ({
                let o = step_window_event(old(self)@, *window_id, event@);
                final(self)@ == o.s && effects_v(out@) == o.effects
            }),
    {
        if self.wm.window(window_id).is_none() {
            let out: Vec<Effect> = Vec::new();
            proof {
                assert(effects_v(out@) =~= Seq::<EffectV>::empty());
            }
            return out;
        }
        match event {
            WindowNotification::Destroyed => {
                let out: Vec<Effect> = Vec::new();
                proof {
                    assert(effects_v(out@) =~= Seq::<EffectV>::empty());
                }
                out
            },
            WindowNotification::CloseRequested => {
                let mut out = match self.ctx.remove(&mut self.wm, window_id) {
                    Ok(v) => v,
                    Err(_) => Vec::new(),
                };
                if self.wm.is_empty() {
                    let ghost before = out@;
                    out.push(Effect::Exit);
                    proof {
                        assert(effects_v(out@) =~= effects_v(before).push(EffectV::Exit));
                    }
                }
                out
            },
            WindowNotification::Resized(size) => {
                match self.ctx.resize(&mut self.wm, window_id, *size) {
                    Ok(v) => v,
                    Err(_) => Vec::new(),
                }
            },
            WindowNotification::ScaleFactorChanged { scale_milli, size } => {
                if *scale_milli == 0 {
                    let out: Vec<Effect> = Vec::new();
                    proof {
                        assert(effects_v(out@) =~= Seq::<EffectV>::empty());
                    }
                    return out;
                }
                match self.ctx.scale_factor(&mut self.wm, window_id, *scale_milli, *size) {
                    Ok(v) => v,
                    Err(_) => Vec::new(),
                }
            },
            WindowNotification::Focused(focus) => {
                match self.ctx.focused(&mut self.wm, window_id, *focus) {
                    Ok(v) => v,
                    Err(_) => Vec::new(),
                }
            },
            WindowNotification::Touch { phase, location } => {
                match self.ctx.touch(&self.wm, window_id, *phase, *location) {
                    Ok(v) => v,
                    Err(_) => Vec::new(),
                }
            },
            WindowNotification::KeyboardInput { key, pressed, repeat } => {
                match self.ctx.key_input(&self.wm, window_id, key, *pressed, *repeat) {
                    Ok(v) => v,
                    Err(_) => Vec::new(),
                }
            },
            WindowNotification::ModifiersChanged(m) => {
                let _ = self.ctx.key_modifier(&self.wm, window_id, m);
                let out: Vec<Effect> = Vec::new();
                proof {
                    assert(effects_v(out@) =~= Seq::<EffectV>::empty());
                }
                out
            },
            WindowNotification::CursorMoved(position) => {
                if !self.state.cursor_moved {
                    self.state.cursor_moved = true;
                }
                let _ = self.ctx.cursor_move(&self.wm, window_id, *position);
                let out: Vec<Effect> = Vec::new();
                proof {
                    assert(effects_v(out@) =~= Seq::<EffectV>::empty());
                }
                out
            },
            WindowNotification::MouseWheel(delta) => {
                match self.ctx.mouse_wheel(&self.wm, window_id, *delta) {
                    Ok(v) => v,
                    Err(_) => Vec::new(),
                }
            },
            WindowNotification::MouseInput { button, pressed } => {
                let ev = if *pressed {
                    MouseTouchEvent::Down(*button)
                } else {
                    MouseTouchEvent::Up(*button)
                };
                match self.ctx.mouse_input(&self.wm, window_id, &ev) {
                    Ok(v) => v,
                    Err(_) => Vec::new(),
                }
            },
            WindowNotification::Other => {
                let out: Vec<Effect> = Vec::new();
                proof {
                    assert(effects_v(out@) =~= Seq::<EffectV>::empty());
                }
                out
            },
        }
    }
}

} // verus!
