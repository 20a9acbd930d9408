//! Effects: what the core asks its collaborators to perform.
//!
//! The scheduler and the input context never touch the platform themselves;
//! each operation returns a list of effects, and the platform layer performs
//! them in order — forwarding semantic events to the event consumer, driving
//! the render collaborator, and controlling the native event loop.

use vstd::prelude::*;

use crate::event::{SemanticEvent, SemanticEventV};
use crate::geometry::Point;
use crate::menu::SubMenuKind;

verus! {

/// The control-flow wait policy to apply at the end of a tick.
#[derive(Clone, Copy, Debug, PartialEq, Eq, Structural)]
pub enum FlowCommand {
    /// Block indefinitely until the next notification.
    Wait,
    /// Block until this many milliseconds from now unless a notification
    /// arrives earlier.
    WaitUntil { millis: u64 },
    /// Sleep this many milliseconds, then continue polling.
    PollAfterSleep { millis: u64 },
}

/// One action the platform layer must perform on the core's behalf.
#[derive(Clone, Debug, PartialEq, Eq)]
pub enum Effect {
    /// Hand this semantic event to the event consumer.
    Emit(SemanticEvent),
    /// Create the render collaborator's target surface for this window,
    /// sized in physical pixels.
    RendererSetup { window_id: u64, width: u32, height: u32 },
    /// Resize the render collaborator's target surface for this window,
    /// sized in logical pixels.
    RendererUpdate { window_id: u64, width: u32, height: u32 },
    /// Drop the render collaborator's resources for this window.
    RendererRemove { window_id: u64 },
    /// Draw a frame for this window at its physical size and scale factor.
    Render { window_id: u64, width: u32, height: u32, scale_milli: u32 },
    /// Ask the platform to schedule a repaint of this window.
    RequestRedraw { window_id: u64 },
    /// Install the menu bar on this window.
    InstallMenu { window_id: u64 },
    /// Change this window's visibility.
    SetVisible { window_id: u64, visible: bool },
    /// Give this window input focus.
    FocusWindow { window_id: u64 },
    /// Lock the cursor to its position in this window (confine it if
    /// locking is unsupported) and hide it.
    GrabCursor { window_id: u64 },
    /// Release the cursor grab on this window and restore its visibility.
    ReleaseCursor { window_id: u64 },
    /// Show a native context menu at this logical position.
    ShowContextMenu { window_id: u64, kind: SubMenuKind, position: Point },
    /// Apply this wait policy for the next tick.
    Flow(FlowCommand),
    /// Leave the event loop; the process-level caller performs teardown.
    Exit,
}

/// The mathematical value of an [`Effect`].
pub enum EffectV {
    Emit(SemanticEventV),
    RendererSetup { window_id: u64, width: u32, height: u32 },
    RendererUpdate { window_id: u64, width: u32, height: u32 },
    RendererRemove { window_id: u64 },
    Render { window_id: u64, width: u32, height: u32, scale_milli: u32 },
    RequestRedraw { window_id: u64 },
    InstallMenu { window_id: u64 },
    SetVisible { window_id: u64, visible: bool },
    FocusWindow { window_id: u64 },
    GrabCursor { window_id: u64 },
    ReleaseCursor { window_id: u64 },
    ShowContextMenu { window_id: u64, kind: SubMenuKind, position: Point },
    Flow(FlowCommand),
    Exit,
}

impl View for Effect {
    type V = EffectV;

    open spec fn view(&self) -> EffectV {
        match self {
            Effect::Emit(e) => EffectV::Emit(e@),
            Effect::RendererSetup { window_id, width, height } => EffectV::RendererSetup {
                window_id: *window_id,
                width: *width,
                height: *height,
            },
            Effect::RendererUpdate { window_id, width, height } => EffectV::RendererUpdate {
                window_id: *window_id,
                width: *width,
                height: *height,
            },
            Effect::RendererRemove { window_id } => EffectV::RendererRemove {
                window_id: *window_id,
            },
            Effect::Render { window_id, width, height, scale_milli } => EffectV::Render {
                window_id: *window_id,
                width: *width,
                height: *height,
                scale_milli: *scale_milli,
            },
            Effect::RequestRedraw { window_id } => EffectV::RequestRedraw {
                window_id: *window_id,
            },
            Effect::InstallMenu { window_id } => EffectV::InstallMenu { window_id: *window_id },
            Effect::SetVisible { window_id, visible } => EffectV::SetVisible {
                window_id: *window_id,
                visible: *visible,
            },
            Effect::FocusWindow { window_id } => EffectV::FocusWindow { window_id: *window_id },
            Effect::GrabCursor { window_id } => EffectV::GrabCursor { window_id: *window_id },
            Effect::ReleaseCursor { window_id } => EffectV::ReleaseCursor {
                window_id: *window_id,
            },
            Effect::ShowContextMenu { window_id, kind, position } => EffectV::ShowContextMenu {
                window_id: *window_id,
                kind: *kind,
                position: *position,
            },
            Effect::Flow(f) => EffectV::Flow(*f),
            Effect::Exit => EffectV::Exit,
        }
    }
}

/// The mathematical value of a list of effects.
pub open spec fn effects_v(v: Seq<Effect>) -> Seq<EffectV> {
    v.map_values(|e: Effect| e@)
}

} // verus!
