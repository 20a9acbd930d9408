//! The input context: converts raw per-window platform notifications into
//! semantic events, coalesces redundant ones, and forwards resize, focus and
//! scale changes to the window registry and (as effects) to the render
//! collaborator.
//!
//! Every operation resolves its target window through the registry and fails
//! with a lookup condition if the identifier is unknown — which aborts only
//! that notification, never the loop. Raw positions are divided by the
//! window's scale factor, so all semantic coordinates are in logical
//! (DPI-independent) units.
//!
//! Each operation's behaviour is stated by a spec function of the same name;
//! the executable operation returns exactly the state and effects the spec
//! function describes.

use vstd::prelude::*;

use crate::effect::{Effect, EffectV, effects_v};
use crate::error::WindowsError;
use crate::event::{
    KeyEvent, KeyEventV, KeyboardModifiers, MouseEvent, MouseTouchEvent, ScrollDelta,
    SemanticEvent, SemanticEventV, TouchInputEvent, TouchPhase,
};
use crate::geometry::{
    Point, Position, Size, approx_eq, approx_eq_px, logical_milli, logical_px_sat,
    position_to_logical, to_logical_px_sat,
};
use crate::key_code::{PlatformKey, PlatformKeyV, key_code_of, key_event_to_code};
use crate::menu::SubMenuKind;
use crate::window::{WindowManager, WindowRecord, WmV};

verus! {

/// The input context's own state: the last known mouse position (logical),
/// the keyboard modifier state, the cursor-grab flag and its previous value
/// (to detect transitions), and the last observed window size.
#[derive(Clone, Copy, Debug, PartialEq, Eq, Structural)]
pub struct Context {
    /// Last known mouse position in thousandths of a logical pixel.
    pub mouse_pos: Point,
    /// Whether anything was handed to the consumer or the renderer since
    /// the last window removal.
    pub has_rendered: bool,
    /// Last window size observed by the update pass, in physical pixels.
    pub window_size: Size,
    /// Lock the cursor in position. Useful for dragging knobs.
    pub grab_cursor: bool,
    /// Value of `grab_cursor` before the previous mouse-move, used to issue
    /// each grab transition exactly once.
    pub prev_grab_cursor: bool,
    /// Keyboard modifiers state.
    pub key_mods: KeyboardModifiers,
}

impl Context {
    /// The state before any notification.
    pub open spec fn initial() -> Context {
        Context {
            mouse_pos: Point { x: 0, y: 0 },
            has_rendered: false,
            window_size: Size { width: 0, height: 0 },
            grab_cursor: false,
            prev_grab_cursor: false,
            key_mods: KeyboardModifiers::released(),
        }
    }
}

impl Default for Context {
    fn default() -> (c: Context)
        ensures
            c == Context::initial(),
    {
        Context {
            mouse_pos: Point { x: 0, y: 0 },
            has_rendered: false,
            window_size: Size { width: 0, height: 0 },
            grab_cursor: false,
            prev_grab_cursor: false,
            key_mods: KeyboardModifiers::default(),
        }
    }
}

/// What one input-context operation leaves behind: the context state, the
/// registry state, the effects handed to the platform layer, and whether the
/// operation failed.
pub struct CtxOut {
    pub ctx: Context,
    pub wm: WmV,
    pub effects: Seq<EffectV>,
    pub result: Result<(), WindowsError>,
}

impl CtxOut {
    /// An operation that failed without changing anything.
    pub open spec fn fail(ctx: Context, wm: WmV, e: WindowsError) -> CtxOut {
        CtxOut { ctx, wm, effects: Seq::empty(), result: Err(e) }
    }
}

/// What `render` does: a frame is drawn for the window at its physical size
/// and scale factor.
pub open spec fn render_spec(ctx: Context, wm: WmV, id: u64) -> CtxOut {
    if !wm.has(id) {
        CtxOut::fail(ctx, wm, WindowsError::WindowStore(id))
    } else {
        let r = wm.rec(id);
        CtxOut {
            ctx: Context { has_rendered: true, ..ctx },
            wm,
            effects: seq![
                EffectV::Render {
                    window_id: id,
                    width: r.width,
                    height: r.height,
                    scale_milli: r.scale_milli,
                },
            ],
            result: Ok(()),
        }
    }
}

/// What `resize` does: the record tracks the new physical size, the render
/// surface is resized to the window's logical size, and a redraw is
/// requested.
pub open spec fn resize_spec(ctx: Context, wm: WmV, id: u64, size: Size) -> CtxOut {
    if !wm.has(id) {
        CtxOut::fail(ctx, wm, WindowsError::WindowStore(id))
    } else {
        let r = wm.rec(id);
        let lw = logical_px_sat(size.width as int, r.scale_milli as int) as u32;
        let lh = logical_px_sat(size.height as int, r.scale_milli as int) as u32;
        CtxOut {
            ctx: Context { has_rendered: true, ..ctx },
            wm: wm.insert_spec(
                id,
                WindowRecord { width: size.width, height: size.height, ..r },
            ),
            effects: seq![
                EffectV::RendererUpdate { window_id: id, width: lw, height: lh },
                EffectV::RequestRedraw { window_id: id },
            ],
            result: Ok(()),
        }
    }
}

/// What `scale_factor` does: the record tracks the platform-proposed size
/// and the new scale factor; if the proposed logical size matches the
/// window's last known logical size within tolerance in either dimension,
/// nothing is resized and no redraw is requested.
pub open spec fn scale_factor_spec(
    ctx: Context,
    wm: WmV,
    id: u64,
    scale_milli: u32,
    size: Size,
) -> CtxOut {
    if !wm.has(id) {
        CtxOut::fail(ctx, wm, WindowsError::WindowStore(id))
    } else {
        let r = wm.rec(id);
        let cur_lw = logical_px_sat(r.width as int, r.scale_milli as int);
        let cur_lh = logical_px_sat(r.height as int, r.scale_milli as int);
        let new_lw = logical_px_sat(size.width as int, scale_milli as int);
        let new_lh = logical_px_sat(size.height as int, scale_milli as int);
        let wm2 = wm.insert_spec(
            id,
            WindowRecord { width: size.width, height: size.height, scale_milli, ..r },
        );
        if approx_eq(cur_lw, new_lw) || approx_eq(cur_lh, new_lh) {
            CtxOut { ctx, wm: wm2, effects: Seq::empty(), result: Ok(()) }
        } else {
            CtxOut {
                ctx: Context { has_rendered: true, ..ctx },
                wm: wm2,
                effects: seq![
                    EffectV::RendererUpdate {
                        window_id: id,
                        width: new_lw as u32,
                        height: new_lh as u32,
                    },
                    EffectV::RequestRedraw { window_id: id },
                ],
                result: Ok(()),
            }
        }
    }
}

/// What `focused` does: when the window gains focus and is neither the
/// registry's focused window nor already focused by the platform, the
/// platform is asked to focus it and the registry records it as focused;
/// the record tracks the reported focus state in every case.
pub open spec fn focused_spec(ctx: Context, wm: WmV, id: u64, focus: bool) -> CtxOut {
    if !wm.has(id) {
        CtxOut::fail(ctx, wm, WindowsError::Focus(id))
    } else {
        let r = wm.rec(id);
        let take_focus = focus && wm.focus != Some(id) && !r.focused;
        let wm2 = WmV {
            map: wm.map.insert(id, WindowRecord { focused: focus, ..r }),
            main: wm.main,
            focus: if take_focus {
                Some(id)
            } else {
                wm.focus
            },
        };
        CtxOut {
            ctx: Context { has_rendered: true, ..ctx },
            wm: wm2,
            effects: if take_focus {
                seq![EffectV::FocusWindow { window_id: id }]
            } else {
                Seq::empty()
            },
            result: Ok(()),
        }
    }
}

/// What `key_input` does: the platform key is translated under the current
/// shift state and the semantic key event is handed to the consumer.
pub open spec fn key_input_spec(
    ctx: Context,
    wm: WmV,
    id: u64,
    key: PlatformKeyV,
    pressed: bool,
    repeat: bool,
) -> CtxOut {
    if !wm.has(id) {
        CtxOut::fail(ctx, wm, WindowsError::WindowStore(id))
    } else {
        let code = key_code_of(key, ctx.key_mods.shift);
        let ev = if pressed {
            KeyEventV::Down(code, repeat)
        } else {
            KeyEventV::Up(code)
        };
        CtxOut {
            ctx: Context { has_rendered: true, ..ctx },
            wm,
            effects: seq![EffectV::Emit(SemanticEventV::Key(ev))],
            result: Ok(()),
        }
    }
}

/// What `key_modifier` does: the latest modifier state replaces the held
/// one.
pub open spec fn key_modifier_spec(ctx: Context, wm: WmV, id: u64, state: KeyboardModifiers) -> (
    Context,
    Result<(), WindowsError>,
) {
    if !wm.has(id) {
        (ctx, Err(WindowsError::WindowStore(id)))
    } else {
        (Context { key_mods: state, ..ctx }, Ok(()))
    }
}

/// The logical point of a raw position under a window's scale factor.
pub open spec fn logical_point(location: Position, scale_milli: u32) -> Point {
    Point {
        x: logical_milli(location.x as int, scale_milli as int) as i64,
        y: logical_milli(location.y as int, scale_milli as int) as i64,
    }
}

/// What `touch` does: the location is converted to logical units and the
/// phase-matched semantic touch event is handed to the consumer.
pub open spec fn touch_spec(
    ctx: Context,
    wm: WmV,
    id: u64,
    phase: TouchPhase,
    location: Position,
) -> CtxOut {
    if !wm.has(id) {
        CtxOut::fail(ctx, wm, WindowsError::WindowStore(id))
    } else {
        let r = wm.rec(id);
        let position = logical_point(location, r.scale_milli);
        let ev = match phase {
            TouchPhase::Started => TouchInputEvent::Begin { id: 0, position },
            TouchPhase::Moved => TouchInputEvent::Move { id: 0, position, delta: position },
            TouchPhase::Ended => TouchInputEvent::End { id: 0, position },
            TouchPhase::Cancelled => TouchInputEvent::End { id: 0, position },
        };
        CtxOut {
            ctx: Context { has_rendered: true, ..ctx },
            wm,
            effects: seq![EffectV::Emit(SemanticEventV::Touch(ev))],
            result: Ok(()),
        }
    }
}

/// What `cursor_move` does: the context tracks the cursor's logical
/// position; no event is emitted here — the scheduler coalesces cursor
/// movement into one semantic event per tick.
pub open spec fn cursor_move_spec(ctx: Context, wm: WmV, id: u64, position: Position) -> (
    Context,
    Result<(), WindowsError>,
) {
    if !wm.has(id) {
        (ctx, Err(WindowsError::WindowStore(id)))
    } else {
        let r = wm.rec(id);
        (Context { mouse_pos: logical_point(position, r.scale_milli), ..ctx }, Ok(()))
    }
}

/// What `mouse_wheel` does: either form of scroll amount becomes one
/// semantic scroll event.
pub open spec fn mouse_wheel_spec(ctx: Context, wm: WmV, id: u64, delta: ScrollDelta) -> CtxOut {
    if !wm.has(id) {
        CtxOut::fail(ctx, wm, WindowsError::WindowStore(id))
    } else {
        let p = match delta {
            ScrollDelta::Line(p) => p,
            ScrollDelta::Pixel(p) => p,
        };
        CtxOut {
            ctx: Context { has_rendered: true, ..ctx },
            wm,
            effects: seq![EffectV::Emit(SemanticEventV::Mouse(MouseEvent::Scroll(p)))],
            result: Ok(()),
        }
    }
}

/// What `mouse_input` does: a context menu is offered at the cursor and the
/// press or release becomes a touch begin or end at the cursor's position.
pub open spec fn mouse_input_spec(ctx: Context, wm: WmV, id: u64, event: MouseTouchEvent) -> CtxOut {
    if !wm.has(id) {
        CtxOut::fail(ctx, wm, WindowsError::WindowStore(id))
    } else {
        let touch = match event {
            MouseTouchEvent::Down(_) => TouchInputEvent::Begin { id: 0, position: ctx.mouse_pos },
            MouseTouchEvent::Up(_) => TouchInputEvent::End { id: 0, position: ctx.mouse_pos },
        };
        CtxOut {
            ctx: Context { has_rendered: true, ..ctx },
            wm,
            effects: seq![
                EffectV::ShowContextMenu {
                    window_id: id,
                    kind: SubMenuKind::Custom,
                    position: ctx.mouse_pos,
                },
                EffectV::Emit(SemanticEventV::Touch(touch)),
            ],
            result: Ok(()),
        }
    }
}

/// What `mouse_move` does: raw motion is reported as a touch move at the
/// cursor's position, and a cursor-grab transition — the grab flag changing
/// since the previous call — locks or releases the cursor on the current
/// window exactly once.
pub open spec fn mouse_move_spec(ctx: Context, wm: WmV, delta: Point) -> CtxOut {
    match wm.current_entry_r() {
        Err(e) => CtxOut::fail(ctx, wm, e),
        Ok(entry) => {
            let cid = entry.0;
            if ctx.mouse_pos == delta {
                CtxOut { ctx, wm, effects: Seq::empty(), result: Ok(()) }
            } else {
                let ev = TouchInputEvent::Move { id: 0, position: ctx.mouse_pos, delta };
                let base = seq![EffectV::Emit(SemanticEventV::Touch(ev))];
                let effects = if ctx.grab_cursor && !ctx.prev_grab_cursor {
                    base.push(EffectV::GrabCursor { window_id: cid })
                } else if !ctx.grab_cursor && ctx.prev_grab_cursor {
                    base.push(EffectV::ReleaseCursor { window_id: cid })
                } else {
                    base
                };
                CtxOut {
                    ctx: Context {
                        has_rendered: true,
                        prev_grab_cursor: ctx.grab_cursor,
                        ..ctx
                    },
                    wm,
                    effects,
                    result: Ok(()),
                }
            }
        },
    }
}

/// What `update` does: the current window's logical size goes to the render
/// collaborator, the observed size is recorded, and a redraw of the current
/// window is requested.
pub open spec fn update_spec(ctx: Context, wm: WmV) -> CtxOut {
    match wm.current_entry_r() {
        Err(e) => CtxOut::fail(ctx, wm, e),
        Ok(entry) => {
            let cid = entry.0;
            let r = entry.1;
            let lw = logical_px_sat(r.width as int, r.scale_milli as int) as u32;
            let lh = logical_px_sat(r.height as int, r.scale_milli as int) as u32;
            CtxOut {
                ctx: Context {
                    has_rendered: true,
                    window_size: Size { width: r.width, height: r.height },
                    ..ctx
                },
                wm,
                effects: seq![
                    EffectV::RendererUpdate { window_id: cid, width: lw, height: lh },
                    EffectV::RequestRedraw { window_id: cid },
                ],
                result: Ok(()),
            }
        },
    }
}

/// What `remove` does: the window leaves the registry (removing an absent
/// identifier is a no-op), the render collaborator drops its resources, and
/// the context's per-window state is reset. Never fails.
pub open spec fn ctx_remove_spec(ctx: Context, wm: WmV, id: u64) -> CtxOut {
    CtxOut {
        ctx: Context {
            has_rendered: false,
            window_size: Size { width: 0, height: 0 },
            ..ctx
        },
        wm: wm.remove_spec(id),
        effects: seq![EffectV::RendererRemove { window_id: id }],
        result: Ok(()),
    }
}

/// Scale-factor no-op rule: for a window of some logical size, a proposed
/// size whose logical size matches within tolerance in both dimensions at
/// the new scale factor resizes nothing and requests no redraw — and the
/// context is untouched.
pub proof fn lemma_scale_factor_noop(ctx: Context, wm: WmV, id: u64, scale_milli: u32, size: Size)
    requires
        wm.has(id),
        approx_eq(
            logical_px_sat(wm.rec(id).width as int, wm.rec(id).scale_milli as int),
            logical_px_sat(size.width as int, scale_milli as int),
        ),
        approx_eq(
            logical_px_sat(wm.rec(id).height as int, wm.rec(id).scale_milli as int),
            logical_px_sat(size.height as int, scale_milli as int),
        ),
    ensures
        scale_factor_spec(ctx, wm, id, scale_milli, size).effects == Seq::<EffectV>::empty(),
        scale_factor_spec(ctx, wm, id, scale_milli, size).ctx == ctx,
        scale_factor_spec(ctx, wm, id, scale_milli, size).result == Ok::<(), WindowsError>(()),
{
}

/// The number of cursor grab or release requests in a list of effects.
pub open spec fn count_grab_effects(es: Seq<EffectV>) -> int
    decreases es.len(),
{
    if es.len() == 0 {
        0
    } else {
        count_grab_effects(es.drop_last()) + if (es.last() is GrabCursor) || (es.last()
            is ReleaseCursor) {
            1int
        } else {
            0int
        }
    }
}

/// Cursor-grab idempotence: across two successive mouse movements with the
/// grab flag unchanged in between, the platform grab or release transition
/// is issued at most once.
pub proof fn lemma_cursor_grab_idempotent(ctx: Context, wm: WmV, d1: Point, d2: Point)
    ensures
        ({
            let o1 = mouse_move_spec(ctx, wm, d1);
            let o2 = mouse_move_spec(o1.ctx, o1.wm, d2);
            count_grab_effects(o1.effects) + count_grab_effects(o2.effects) <= 1
        }),
{
    let o1 = mouse_move_spec(ctx, wm, d1);
    let o2 = mouse_move_spec(o1.ctx, o1.wm, d2);
    lemma_count_grab_mouse_move(ctx, wm, d1);
    lemma_count_grab_mouse_move(o1.ctx, o1.wm, d2);
}

/// A single mouse movement issues one grab transition exactly when it
/// reports motion while the grab flag changed since the previous movement.
proof fn lemma_count_grab_mouse_move(ctx: Context, wm: WmV, d: Point)
    ensures
        ({
            let o = mouse_move_spec(ctx, wm, d);
            count_grab_effects(o.effects) == if o.result is Ok && ctx.mouse_pos != d
                && ctx.grab_cursor != ctx.prev_grab_cursor {
                1int
            } else {
                0int
            }
        }),
        mouse_move_spec(ctx, wm, d).result is Ok && ctx.mouse_pos != d ==> mouse_move_spec(
            ctx,
            wm,
            d,
        ).ctx.prev_grab_cursor == ctx.grab_cursor,
        mouse_move_spec(ctx, wm, d).result is Err || ctx.mouse_pos == d ==> mouse_move_spec(
            ctx,
            wm,
            d,
        ).ctx.grab_cursor == ctx.grab_cursor && mouse_move_spec(ctx, wm, d).ctx.prev_grab_cursor
            == ctx.prev_grab_cursor,
{
    let o = mouse_move_spec(ctx, wm, d);
    match wm.current_entry_r() {
        Err(_) => {
            assert(count_grab_effects(o.effects) == 0);
        },
        Ok(entry) => {
            if ctx.mouse_pos == d {
                assert(count_grab_effects(o.effects) == 0);
            } else {
                let ev = TouchInputEvent::Move { id: 0, position: ctx.mouse_pos, delta: d };
                let base = seq![EffectV::Emit(SemanticEventV::Touch(ev))];
                assert(base.drop_last() =~= Seq::<EffectV>::empty());
                assert(count_grab_effects(base.drop_last()) == 0);
                assert(base.last() == EffectV::Emit(SemanticEventV::Touch(ev)));
                assert(count_grab_effects(base) == 0);
                if ctx.grab_cursor != ctx.prev_grab_cursor {
                    assert(o.effects.drop_last() =~= base);
                    assert(count_grab_effects(o.effects) == 1);
                } else {
                    assert(count_grab_effects(o.effects) == 0);
                }
            }
        },
    }
}

/// The event-consumer seam. The semantic events themselves travel to the
/// consumer as [`Effect::Emit`] effects; these operations record that the
/// tick did work.
impl Context {
    /// Notes a semantic touch event passing to the consumer.
    pub fn process_touch(&mut self, event: &TouchInputEvent)
        ensures
            *final(self) == (Context { has_rendered: true, ..*old(self) }),
    {
        self.has_rendered = true;
    }

    /// Notes a semantic mouse event passing to the consumer.
    pub fn process_mouse_event(&mut self, event: &MouseEvent)
        ensures
            *final(self) == (Context { has_rendered: true, ..*old(self) }),
    {
        self.has_rendered = true;
    }

    /// Notes a semantic key event passing to the consumer.
    pub fn process_key_event(&mut self, event: &KeyEvent)
        ensures
            *final(self) == (Context { has_rendered: true, ..*old(self) }),
    {
        self.has_rendered = true;
    }

    /// Sets the cursor-grab flag; the next mouse movement performs the
    /// platform grab or release transition if the flag changed.
    pub fn set_grab_cursor(&mut self, grab: bool)
        ensures
            *final(self) == (Context { grab_cursor: grab, ..*old(self) }),
    {
        self.grab_cursor = grab;
    }
}

impl Context {
    /// Draws a frame for the window: see [`render_spec`].
    pub fn render(&mut self, wm: &WindowManager, window_id: &u64) -> (r: Result<
        Vec<Effect>,
        WindowsError,
    >)
        requires
            wm.wf(),
        ensures
            ({
                let o = render_spec(*old(self), wm@, *window_id);
                &&& *final(self) == o.ctx
                &&& match r {
                    Ok(v) => o.result is Ok && effects_v(v@) == o.effects,
                    Err(e) => o.result == Err::<(), WindowsError>(e),
                }
            }),
    {
        let rec = match wm.window(window_id) {
            None => {
                return Err(WindowsError::WindowStore(*window_id));
            },
            Some(rec) => rec,
        };
        self.has_rendered = true;
        let mut out: Vec<Effect> = Vec::new();
        out.push(
            Effect::Render {
                window_id: *window_id,
                width: rec.width,
                height: rec.height,
                scale_milli: rec.scale_milli,
            },
        );
        proof {
            assert(effects_v(out@) =~= render_spec(*old(self), wm@, *window_id).effects);
        }
        Ok(out)
    }

    /// Resizes the window and the render surface and requests a redraw: see
    /// [`resize_spec`].
    pub fn resize(&mut self, wm: &mut WindowManager, window_id: &u64, size: Size) -> (r: Result<
        Vec<Effect>,
        WindowsError,
    >)
        requires
            old(wm).wf(),
        ensures
            final(wm).wf(),
            ({
                let o = resize_spec(*old(self), old(wm)@, *window_id, size);
                &&& *final(self) == o.ctx
                &&& final(wm)@ == o.wm
                &&& match r {
                    Ok(v) => o.result is Ok && effects_v(v@) == o.effects,
                    Err(e) => o.result == Err::<(), WindowsError>(e),
                }
            }),
    {
        let rec = match wm.window(window_id) {
            None => {
                return Err(WindowsError::WindowStore(*window_id));
            },
            Some(rec) => rec,
        };
        wm.update_record(
            *window_id,
            WindowRecord { width: size.width, height: size.height, ..rec },
        );
        let lw = to_logical_px_sat(size.width, rec.scale_milli);
        let lh = to_logical_px_sat(size.height, rec.scale_milli);
        self.has_rendered = true;
        let mut out: Vec<Effect> = Vec::new();
        out.push(Effect::RendererUpdate { window_id: *window_id, width: lw, height: lh });
        out.push(Effect::RequestRedraw { window_id: *window_id });
        proof {
            assert(effects_v(out@) =~= resize_spec(*old(self), old(wm)@, *window_id, size).effects);
        }
        Ok(out)
    }

    /// Applies a platform scale-factor change: see [`scale_factor_spec`].
    /// `size` is the platform-proposed physical size at the new scale.
    pub fn scale_factor(
        &mut self,
        wm: &mut WindowManager,
        window_id: &u64,
        scale_milli: u32,
        size: Size,
    ) -> (r: Result<Vec<Effect>, WindowsError>)
        requires
            old(wm).wf(),
            scale_milli >= 1,
        ensures
            final(wm).wf(),
            ({
                let o = scale_factor_spec(*old(self), old(wm)@, *window_id, scale_milli, size);
                &&& *final(self) == o.ctx
                &&& final(wm)@ == o.wm
                &&& match r {
                    Ok(v) => o.result is Ok && effects_v(v@) == o.effects,
                    Err(e) => o.result == Err::<(), WindowsError>(e),
                }
            }),
    {
        let rec = match wm.window(window_id) {
            None => {
                return Err(WindowsError::WindowStore(*window_id));
            },
            Some(rec) => rec,
        };
        let cur_lw = to_logical_px_sat(rec.width, rec.scale_milli);
        let cur_lh = to_logical_px_sat(rec.height, rec.scale_milli);
        let new_lw = to_logical_px_sat(size.width, scale_milli);
        let new_lh = to_logical_px_sat(size.height, scale_milli);
        wm.update_record(
            *window_id,
            WindowRecord { width: size.width, height: size.height, scale_milli, ..rec },
        );
        if approx_eq_px(cur_lw, new_lw) || approx_eq_px(cur_lh, new_lh) {
            let out: Vec<Effect> = Vec::new();
            proof {
                assert(effects_v(out@) =~= Seq::<EffectV>::empty());
            }
            return Ok(out);
        }
        self.has_rendered = true;
        let mut out: Vec<Effect> = Vec::new();
        out.push(Effect::RendererUpdate { window_id: *window_id, width: new_lw, height: new_lh });
        out.push(Effect::RequestRedraw { window_id: *window_id });
        proof {
            assert(effects_v(out@) =~= scale_factor_spec(
                *old(self),
                old(wm)@,
                *window_id,
                scale_milli,
                size,
            ).effects);
        }
        Ok(out)
    }

    /// Updates the focus state of the window: see [`focused_spec`].
    pub fn focused(&mut self, wm: &mut WindowManager, window_id: &u64, focus: bool) -> (r: Result<
        Vec<Effect>,
        WindowsError,
    >)
        requires
            old(wm).wf(),
        ensures
            final(wm).wf(),
            ({
                let o = focused_spec(*old(self), old(wm)@, *window_id, focus);
                &&& *final(self) == o.ctx
                &&& final(wm)@ == o.wm
                &&& match r {
                    Ok(v) => o.result is Ok && effects_v(v@) == o.effects,
                    Err(e) => o.result == Err::<(), WindowsError>(e),
                }
            }),
    {
        let rec = match wm.window(window_id) {
            None => {
                return Err(WindowsError::Focus(*window_id));
            },
            Some(rec) => rec,
        };
        let is_current = wm.is_current_window(window_id);
        let take_focus = focus && !is_current && !rec.focused;
        wm.update_record(*window_id, WindowRecord { focused: focus, ..rec });
        let mut out: Vec<Effect> = Vec::new();
        if take_focus {
            out.push(Effect::FocusWindow { window_id: *window_id });
            wm.focus_window(*window_id);
        }
        self.has_rendered = true;
        proof {
            assert(effects_v(out@) =~= focused_spec(
                *old(self),
                old(wm)@,
                *window_id,
                focus,
            ).effects);
        }
        Ok(out)
    }

    /// Handles user key input: see [`key_input_spec`]. `key` is the
    /// platform key identity with modifiers already stripped.
    pub fn key_input(
        &mut self,
        wm: &WindowManager,
        window_id: &u64,
        key: &PlatformKey,
        pressed: bool,
        repeat: bool,
    ) -> (r: Result<Vec<Effect>, WindowsError>)
        requires
            wm.wf(),
        ensures
            ({
                let o = key_input_spec(*old(self), wm@, *window_id, key@, pressed, repeat);
                &&& *final(self) == o.ctx
                &&& match r {
                    Ok(v) => o.result is Ok && effects_v(v@) == o.effects,
                    Err(e) => o.result == Err::<(), WindowsError>(e),
                }
            }),
    {
        if wm.window(window_id).is_none() {
            return Err(WindowsError::WindowStore(*window_id));
        }
        let code = key_event_to_code(key, &self.key_mods);
        let event = if pressed {
            KeyEvent::Down(code, repeat)
        } else {
            KeyEvent::Up(code)
        };
        self.process_key_event(&event);
        let mut out: Vec<Effect> = Vec::new();
        out.push(Effect::Emit(SemanticEvent::Key(event)));
        proof {
            assert(effects_v(out@) =~= key_input_spec(
                *old(self),
                wm@,
                *window_id,
                key@,
                pressed,
                repeat,
            ).effects);
        }
        Ok(out)
    }

    /// Replaces the held keyboard modifier state: see [`key_modifier_spec`].
    pub fn key_modifier(
        &mut self,
        wm: &WindowManager,
        window_id: &u64,
        state: &KeyboardModifiers,
    ) -> (r: Result<(), WindowsError>)
        requires
            wm.wf(),
        ensures
            ({
                let o = key_modifier_spec(*old(self), wm@, *window_id, *state);
                *final(self) == o.0 && r == o.1
            }),
    {
        if wm.window(window_id).is_none() {
            return Err(WindowsError::WindowStore(*window_id));
        }
        self.key_mods = *state;
        Ok(())
    }

    /// Handles a platform touch notification: see [`touch_spec`].
    pub fn touch(
        &mut self,
        wm: &WindowManager,
        window_id: &u64,
        phase: TouchPhase,
        location: Position,
    ) -> (r: Result<Vec<Effect>, WindowsError>)
        requires
            wm.wf(),
        ensures
            ({
                let o = touch_spec(*old(self), wm@, *window_id, phase, location);
                &&& *final(self) == o.ctx
                &&& match r {
                    Ok(v) => o.result is Ok && effects_v(v@) == o.effects,
                    Err(e) => o.result == Err::<(), WindowsError>(e),
                }
            }),
    {
        let rec = match wm.window(window_id) {
            None => {
                return Err(WindowsError::WindowStore(*window_id));
            },
            Some(rec) => rec,
        };
        let position = position_to_logical(location, rec.scale_milli);
        let delta = position;
        let event = match phase {
            TouchPhase::Started => TouchInputEvent::Begin { id: 0, position },
            TouchPhase::Moved => TouchInputEvent::Move { id: 0, position, delta },
            TouchPhase::Ended => TouchInputEvent::End { id: 0, position },
            TouchPhase::Cancelled => TouchInputEvent::End { id: 0, position },
        };
        self.process_touch(&event);
        let mut out: Vec<Effect> = Vec::new();
        out.push(Effect::Emit(SemanticEvent::Touch(event)));
        proof {
            assert(effects_v(out@) =~= touch_spec(
                *old(self),
                wm@,
                *window_id,
                phase,
                location,
            ).effects);
        }
        Ok(out)
    }

    /// Tracks a cursor movement inside a window: see [`cursor_move_spec`].
    pub fn cursor_move(
        &mut self,
        wm: &WindowManager,
        window_id: &u64,
        position: Position,
    ) -> (r: Result<(), WindowsError>)
        requires
            wm.wf(),
        ensures
            ({
                let o = cursor_move_spec(*old(self), wm@, *window_id, position);
                *final(self) == o.0 && r == o.1
            }),
    {
        let rec = match wm.window(window_id) {
            None => {
                return Err(WindowsError::WindowStore(*window_id));
            },
            Some(rec) => rec,
        };
        self.mouse_pos = position_to_logical(position, rec.scale_milli);
        Ok(())
    }

    /// Handles mouse-wheel scrolling: see [`mouse_wheel_spec`].
    pub fn mouse_wheel(
        &mut self,
        wm: &WindowManager,
        window_id: &u64,
        delta: ScrollDelta,
    ) -> (r: Result<Vec<Effect>, WindowsError>)
        requires
            wm.wf(),
        ensures
            ({
                let o = mouse_wheel_spec(*old(self), wm@, *window_id, delta);
                &&& *final(self) == o.ctx
                &&& match r {
                    Ok(v) => o.result is Ok && effects_v(v@) == o.effects,
                    Err(e) => o.result == Err::<(), WindowsError>(e),
                }
            }),
    {
        if wm.window(window_id).is_none() {
            return Err(WindowsError::WindowStore(*window_id));
        }
        let p = match delta {
            ScrollDelta::Line(p) => p,
            ScrollDelta::Pixel(p) => p,
        };
        let event = MouseEvent::Scroll(p);
        self.process_mouse_event(&event);
        let mut out: Vec<Effect> = Vec::new();
        out.push(Effect::Emit(SemanticEvent::Mouse(event)));
        proof {
            assert(effects_v(out@) =~= mouse_wheel_spec(*old(self), wm@, *window_id, delta).effects);
        }
        Ok(out)
    }

    /// Handles a mouse button press or release: see [`mouse_input_spec`].
    pub fn mouse_input(
        &mut self,
        wm: &WindowManager,
        window_id: &u64,
        event: &MouseTouchEvent,
    ) -> (r: Result<Vec<Effect>, WindowsError>)
        requires
            wm.wf(),
        ensures
            ({
                let o = mouse_input_spec(*old(self), wm@, *window_id, *event);
                &&& *final(self) == o.ctx
                &&& match r {
                    Ok(v) => o.result is Ok && effects_v(v@) == o.effects,
                    Err(e) => o.result == Err::<(), WindowsError>(e),
                }
            }),
    {
        if wm.window(window_id).is_none() {
            return Err(WindowsError::WindowStore(*window_id));
        }
        let touch = match event {
            MouseTouchEvent::Down(_) => TouchInputEvent::Begin { id: 0, position: self.mouse_pos },
            MouseTouchEvent::Up(_) => TouchInputEvent::End { id: 0, position: self.mouse_pos },
        };
        let mut out: Vec<Effect> = Vec::new();
        out.push(
            Effect::ShowContextMenu {
                window_id: *window_id,
                kind: SubMenuKind::Custom,
                position: self.mouse_pos,
            },
        );
        self.process_touch(&touch);
        out.push(Effect::Emit(SemanticEvent::Touch(touch)));
        proof {
            assert(effects_v(out@) =~= mouse_input_spec(*old(self), wm@, *window_id, *event).effects);
        }
        Ok(out)
    }

    /// Handles device-level raw mouse motion (the drag path): see
    /// [`mouse_move_spec`].
    pub fn mouse_move(&mut self, wm: &WindowManager, delta: Point) -> (r: Result<
        Vec<Effect>,
        WindowsError,
    >)
        requires
            wm.wf(),
        ensures
            ({
                let o = mouse_move_spec(*old(self), wm@, delta);
                &&& *final(self) == o.ctx
                &&& match r {
                    Ok(v) => o.result is Ok && effects_v(v@) == o.effects,
                    Err(e) => o.result == Err::<(), WindowsError>(e),
                }
            }),
    {
        let entry = match wm.current_window_entry() {
            Err(e) => {
                return Err(e);
            },
            Ok(e) => e,
        };
        if self.mouse_pos == delta {
            let out: Vec<Effect> = Vec::new();
            proof {
                assert(effects_v(out@) =~= Seq::<EffectV>::empty());
            }
            return Ok(out);
        }
        let event = TouchInputEvent::Move { id: 0, position: self.mouse_pos, delta };
        self.process_touch(&event);
        let mut out: Vec<Effect> = Vec::new();
        out.push(Effect::Emit(SemanticEvent::Touch(event)));
        if self.grab_cursor && !self.prev_grab_cursor {
            out.push(Effect::GrabCursor { window_id: entry.0 });
        }
        if !self.grab_cursor && self.prev_grab_cursor {
            out.push(Effect::ReleaseCursor { window_id: entry.0 });
        }
        self.prev_grab_cursor = self.grab_cursor;
        proof {
            assert(effects_v(out@) =~= mouse_move_spec(*old(self), wm@, delta).effects);
        }
        Ok(out)
    }

    /// Queues the per-tick update: resize propagation to the renderer and a
    /// redraw request on the current window: see [`update_spec`]. Call this
    /// after the event queue is cleared.
    pub fn update(&mut self, wm: &WindowManager) -> (r: Result<Vec<Effect>, WindowsError>)
        requires
            wm.wf(),
        ensures
            ({
                let o = update_spec(*old(self), wm@);
                &&& *final(self) == o.ctx
                &&& match r {
                    Ok(v) => o.result is Ok && effects_v(v@) == o.effects,
                    Err(e) => o.result == Err::<(), WindowsError>(e),
                }
            }),
    {
        let entry = match wm.current_window_entry() {
            Err(e) => {
                return Err(e);
            },
            Ok(e) => e,
        };
        let cid = entry.0;
        let rec = entry.1;
        let lw = to_logical_px_sat(rec.width, rec.scale_milli);
        let lh = to_logical_px_sat(rec.height, rec.scale_milli);
        self.window_size = Size { width: rec.width, height: rec.height };
        let mut out: Vec<Effect> = Vec::new();
        out.push(Effect::RendererUpdate { window_id: cid, width: lw, height: lh });
        out.push(Effect::RequestRedraw { window_id: cid });
        self.has_rendered = true;
        proof {
            assert(effects_v(out@) =~= update_spec(*old(self), wm@).effects);
        }
        Ok(out)
    }

    /// Removes every registered resource for a window: see
    /// [`ctx_remove_spec`].
    pub fn remove(&mut self, wm: &mut WindowManager, window_id: &u64) -> (r: Result<
        Vec<Effect>,
        WindowsError,
    >)
        requires
            old(wm).wf(),
        ensures
            final(wm).wf(),
            ({
                let o = ctx_remove_spec(*old(self), old(wm)@, *window_id);
                &&& *final(self) == o.ctx
                &&& final(wm)@ == o.wm
                &&& match r {
                    Ok(v) => o.result is Ok && effects_v(v@) == o.effects,
                    Err(e) => o.result == Err::<(), WindowsError>(e),
                }
            }),
    {
        wm.remove(window_id);
        let mut out: Vec<Effect> = Vec::new();
        out.push(Effect::RendererRemove { window_id: *window_id });
        self.has_rendered = false;
        self.window_size = Size::default();
        proof {
            assert(effects_v(out@) =~= ctx_remove_spec(*old(self), old(wm)@, *window_id).effects);
        }
        Ok(out)
    }
}

} // verus!
