use vstd::prelude::*;

use crate::surface::{initial_sizes, resized, PixelSize, SurfaceSizes};

verus! {

/// Where the frame loop stands between two calls.
#[derive(Clone, Copy, Debug, PartialEq, Eq, Structural)]
pub enum LoopPhase {
    /// Waiting for events.
    Idle,
    /// A frame was begun and its target is being acquired.
    Rendering,
    /// The window was closed; nothing more happens.
    Closed,
}

/// An event from the windowing layer, as the loop sees it.
#[derive(Clone, Copy, Debug, PartialEq, Eq, Structural)]
pub enum LoopEvent {
    CloseRequested,
    Resized(PixelSize),
    /// The scale factor changed; carries the window's size at that moment.
    ScaleFactorChanged(PixelSize),
    RedrawRequested,
    /// Any other event of this window (input and the like).
    OtherWindowEvent,
    /// An event that does not target this window.
    Foreign,
    /// All pending events were handled.
    EventsCleared,
}

/// What the loop asks its driver to do after one event.
#[derive(Clone, Copy, Debug, PartialEq, Eq, Structural)]
pub enum LoopAction {
    Nothing,
    /// Leave the loop.
    Exit,
    /// Configure the surface again with the current sizes.
    Configure,
    /// Run layout, tessellation and texture upload, then acquire a frame target.
    BeginFrame,
}

/// The driver's orders for one event.
#[derive(Clone, Copy, Debug, PartialEq, Eq, Structural)]
pub struct Dispatch {
    pub action: LoopAction,
    /// Ask the window for another redraw.
    pub request_redraw: bool,
}

/// What follows an attempt to acquire the frame target.
#[derive(Clone, Copy, Debug, PartialEq, Eq, Structural)]
pub enum FrameOutcome {
    /// Draw, submit and present.
    Present,
    /// Skip this frame and configure the surface again with the current sizes.
    SkipAndConfigure,
    /// Skip this frame; the last known window size cannot be configured.
    Skip,
}

/// The state of the frame loop: its phase and the surface sizes.
#[derive(Clone, Copy, Debug, PartialEq, Eq, Structural)]
pub struct FrameLoop {
    pub phase: LoopPhase,
    pub surface: SurfaceSizes,
}

/// The state and orders after `event`, given whether the UI asked for a repaint.
pub open spec fn step(s: FrameLoop, event: LoopEvent, ui_repaint: bool) -> (FrameLoop, Dispatch) {
    let none = Dispatch { action: LoopAction::Nothing, request_redraw: false };
    if s.phase == LoopPhase::Closed {
        (s, none)
    } else {
        let for_window = !(event is Foreign) && !(event is EventsCleared);
        let redraw = (for_window && ui_repaint) || event is EventsCleared;
        match event {
            LoopEvent::CloseRequested => (
                FrameLoop { phase: LoopPhase::Closed, ..s },
                Dispatch { action: LoopAction::Exit, request_redraw: redraw },
            ),
            LoopEvent::Resized(size) => resize_step(s, size, redraw),
            LoopEvent::ScaleFactorChanged(size) => resize_step(s, size, redraw),
            LoopEvent::RedrawRequested => (
                FrameLoop { phase: LoopPhase::Rendering, ..s },
                Dispatch { action: LoopAction::BeginFrame, request_redraw: redraw },
            ),
            _ => (
                FrameLoop { phase: LoopPhase::Idle, ..s },
                Dispatch { action: LoopAction::Nothing, request_redraw: redraw },
            ),
        }
    }
}

pub open spec fn resize_step(s: FrameLoop, size: PixelSize, redraw: bool) -> (FrameLoop, Dispatch) {
    (
        FrameLoop { phase: LoopPhase::Idle, surface: resized(s.surface, size) },
        Dispatch {
            action: if size.is_positive() {
                LoopAction::Configure
            } else {
                LoopAction::Nothing
            },
            request_redraw: redraw,
        },
    )
}

/// The state and outcome once the frame target was acquired (or not).
pub open spec fn acquired_step(s: FrameLoop, acquired: bool) -> (FrameLoop, FrameOutcome) {
    if acquired {
        (FrameLoop { phase: LoopPhase::Idle, ..s }, FrameOutcome::Present)
    } else {
        (
            FrameLoop { phase: LoopPhase::Idle, surface: resized(s.surface, s.surface.window) },
            if s.surface.window.is_positive() {
                FrameOutcome::SkipAndConfigure
            } else {
                FrameOutcome::Skip
            },
        )
    }
}

impl FrameLoop {
    pub open spec fn wf(self) -> bool {
        self.surface.wf()
    }

    /// A loop waiting for events, with a fresh surface on a window of `window`.
    pub fn new(window: PixelSize) -> (r: Self)
        ensures
            r.phase == LoopPhase::Idle,
            r.surface == initial_sizes(window),
            r.wf(),
    {
        FrameLoop { phase: LoopPhase::Idle, surface: SurfaceSizes::new(window) }
    }

    /// Handles one event outside a frame.
    pub fn handle_event(&mut self, event: LoopEvent, ui_repaint: bool) -> (r: Dispatch)
        requires
            old(self).wf(),
            old(self).phase != LoopPhase::Rendering,
        ensures
            (*final(self), r) == step(*old(self), event, ui_repaint),
            final(self).wf(),
    {
        if self.phase == LoopPhase::Closed {
            return Dispatch { action: LoopAction::Nothing, request_redraw: false };
        }
        let for_window = match event {
            LoopEvent::Foreign | LoopEvent::EventsCleared => false,
            _ => true,
        };
        let redraw = (for_window && ui_repaint) || event == LoopEvent::EventsCleared;
        match event {
            LoopEvent::CloseRequested => {
                self.phase = LoopPhase::Closed;
                Dispatch { action: LoopAction::Exit, request_redraw: redraw }
            },
            LoopEvent::Resized(size) | LoopEvent::ScaleFactorChanged(size) => {
                self.phase = LoopPhase::Idle;
                let changed = self.surface.resize(size);
                let action = if changed {
                    LoopAction::Configure
                } else {
                    LoopAction::Nothing
                };
                Dispatch { action, request_redraw: redraw }
            },
            LoopEvent::RedrawRequested => {
                self.phase = LoopPhase::Rendering;
                Dispatch { action: LoopAction::BeginFrame, request_redraw: redraw }
            },
            _ => {
                self.phase = LoopPhase::Idle;
                Dispatch { action: LoopAction::Nothing, request_redraw: redraw }
            },
        }
    }

    /// Takes the result of acquiring the frame target; a failure skips the
    /// frame and configures the surface again with the last known window size.
    pub fn frame_acquired(&mut self, acquired: bool) -> (r: FrameOutcome)
        requires
            old(self).wf(),
            old(self).phase == LoopPhase::Rendering,
        ensures
            (*final(self), r) == acquired_step(*old(self), acquired),
            final(self).wf(),
    {
        self.phase = LoopPhase::Idle;
        if acquired {
            FrameOutcome::Present
        } else {
            let window = self.surface.window;
            if self.surface.resize(window) {
                FrameOutcome::SkipAndConfigure
            } else {
                FrameOutcome::Skip
            }
        }
    }
}

/// A failed frame acquisition does not end the loop: the surface is left
/// configured with the last known window size (when it has no zero side), and
/// the next redraw request begins a frame.
pub proof fn lemma_lost_frame_recovers(s: FrameLoop, repaint: bool)
    requires
        s.wf(),
        s.phase == LoopPhase::Rendering,
    ensures
        ({
            let (t, _) = acquired_step(s, false);
            let (u, d) = step(t, LoopEvent::RedrawRequested, repaint);
            &&& t.phase != LoopPhase::Closed
            &&& t.wf()
            &&& s.surface.window.is_positive() ==> t.surface.configured == s.surface.window
            &&& d.action == LoopAction::BeginFrame
            &&& u.phase == LoopPhase::Rendering
        }),
{
}

} // verus!
