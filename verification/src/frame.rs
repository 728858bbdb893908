//! Decisions of the frame driver.
//!
//! The driver owns the window and the drawing surface and does all the
//! work on them. What it does next is decided here, from plain values that
//! describe what the window system reported.

use crate::viewport::ScreenSize;
use vstd::prelude::*;

verus! {

/// What the window system reported, as far as the driver acts on it.
#[derive(Clone, Copy, Debug, PartialEq, Eq)]
pub enum WindowSignal {
    /// The user asked to close the window.
    CloseRequested,
    /// The window wants its contents drawn.
    RedrawRequested,
    /// The window has the given new extent.
    Resized(ScreenSize),
    /// The pointer moved inside the window.
    CursorMoved,
    /// Anything else.
    Other,
}

/// What the driver does about a signal.
#[derive(Clone, Copy, Debug, PartialEq, Eq)]
pub enum Reaction {
    /// Leave the event loop.
    Exit,
    /// Draw a frame, then ask for the next redraw.
    Redraw,
    /// Fit the surface to the given extent.
    Resize(ScreenSize),
    /// Remember where the pointer is.
    TrackCursor,
    /// Nothing.
    Ignore,
}

/// The reaction to each signal. A resize to an extent without area, as a
/// minimised window reports it, is ignored: a surface cannot be that size.
pub open spec fn reaction(signal: WindowSignal) -> Reaction {
    match signal {
        WindowSignal::CloseRequested => Reaction::Exit,
        WindowSignal::RedrawRequested => Reaction::Redraw,
        WindowSignal::Resized(size) => if size.has_area() {
            Reaction::Resize(size)
        } else {
            Reaction::Ignore
        },
        WindowSignal::CursorMoved => Reaction::TrackCursor,
        WindowSignal::Other => Reaction::Ignore,
    }
}

/// Decides what the driver does about `signal`.
pub fn react(signal: WindowSignal) -> (what: Reaction)
    ensures
        what == reaction(signal),
{
    match signal {
        WindowSignal::CloseRequested => Reaction::Exit,
        WindowSignal::RedrawRequested => Reaction::Redraw,
        WindowSignal::Resized(size) => {
            if size.has_area() {
                Reaction::Resize(size)
            } else {
                Reaction::Ignore
            }
        },
        WindowSignal::CursorMoved => Reaction::TrackCursor,
        WindowSignal::Other => Reaction::Ignore,
    }
}

/// Whether a redraw is passed over before the surface is touched: it is
/// when the window is known to be minimised. A window system that cannot
/// tell, and so reports nothing, gets its frame.
pub fn passes_over(minimized: Option<bool>) -> (skip: bool)
    ensures
        skip == (minimized == Some(true)),
{
    match minimized {
        Some(hidden) => hidden,
        None => false,
    }
}

/// How the request for the surface's next texture ended.
#[derive(Clone, Copy, Debug, PartialEq, Eq)]
pub enum Acquisition {
    /// A texture was handed out.
    Acquired,
    /// The surface no longer fits the window, as during a resize.
    Outdated,
    /// Any other failure.
    Failed,
}

/// What becomes of the frame once the texture was asked for.
#[derive(Clone, Copy, Debug, PartialEq, Eq)]
pub enum FramePlan {
    /// Draw into the texture and present it.
    Draw,
    /// Drop this frame; the next redraw tries again.
    Skip,
    /// Give up: the surface is unusable.
    Abort,
}

/// The plan for each way the acquisition can end. An outdated surface costs
/// one frame only, since the resize that follows brings it up to date.
pub open spec fn frame_plan(acquisition: Acquisition) -> FramePlan {
    match acquisition {
        Acquisition::Acquired => FramePlan::Draw,
        Acquisition::Outdated => FramePlan::Skip,
        Acquisition::Failed => FramePlan::Abort,
    }
}

/// Decides what becomes of the frame.
pub fn plan_frame(acquisition: Acquisition) -> (plan: FramePlan)
    ensures
        plan == frame_plan(acquisition),
{
    match acquisition {
        Acquisition::Acquired => FramePlan::Draw,
        Acquisition::Outdated => FramePlan::Skip,
        Acquisition::Failed => FramePlan::Abort,
    }
}

} // verus!
