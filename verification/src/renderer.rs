//! The per-frame render lifecycle and its error taxonomy.
//!
//! A frame is: acquire a presentable image from the surface, build exactly
//! one render pass whose single color attachment clears to the current
//! color and stores the result, submit the one recorded command sequence,
//! present. The backend calls themselves are performed by the host harness;
//! this module drives the frame through its state machine
//! `Idle -> Acquiring -> Acquired -> Encoding -> Submitted -> Presented -> Idle`,
//! classifies acquisition failures into the three-way recovery taxonomy,
//! and pins down what the harness must encode.

use vstd::prelude::*;

use crate::color::ClearColor;
use crate::color::ColorState;

verus! {

/// The backend's acquisition failures, as the surface reports them.
#[derive(Clone, Copy, Debug, PartialEq, Eq, Structural)]
pub enum SurfaceError {
    /// A free image did not become available in time.
    Timeout,
    /// The surface no longer matches the window and needs reconfiguration.
    Outdated,
    /// The surface's backing resources are no longer valid.
    Lost,
    /// The device cannot allocate the needed resources.
    OutOfMemory,
}

/// The backend-agnostic render failure taxonomy the recovery policy acts on.
#[derive(Clone, Copy, Debug, PartialEq, Eq, Structural)]
pub enum RenderError {
    /// The surface needs reconfiguration with its last known-good
    /// dimensions; recoverable within the same tick.
    Lost,
    /// Out-of-memory class failure; unrecoverable, the loop must terminate.
    Fatal,
    /// Any other backend error; the frame is skipped and the error logged.
    Transient,
}

/// How an acquisition failure is classified: surface loss is recoverable,
/// memory exhaustion is fatal, everything else is transient.
pub open spec fn classify_spec(e: SurfaceError) -> RenderError {
    match e {
        SurfaceError::Lost => RenderError::Lost,
        SurfaceError::OutOfMemory => RenderError::Fatal,
        SurfaceError::Timeout => RenderError::Transient,
        SurfaceError::Outdated => RenderError::Transient,
    }
}

/// Classifies a surface acquisition failure into the recovery taxonomy.
pub fn classify_surface_error(e: &SurfaceError) -> (r: RenderError)
    ensures
        r == classify_spec(*e),
        r is Lost <==> *e is Lost,
        r is Fatal <==> *e is OutOfMemory,
        r is Transient <==> (*e is Timeout || *e is Outdated),
{
    match e {
        SurfaceError::Lost => RenderError::Lost,
        SurfaceError::OutOfMemory => RenderError::Fatal,
        SurfaceError::Timeout => RenderError::Transient,
        SurfaceError::Outdated => RenderError::Transient,
    }
}

/// What the harness must encode for the acquired image: one render pass,
/// one color attachment targeting the image's default view, no resolve
/// target, no depth or stencil attachment, no draw calls. The load
/// operation clears to `clear`; `store` says whether the result is written
/// back so it can be presented (always true here).
#[derive(Clone, Copy, Debug, PartialEq, Eq, Structural)]
pub struct ClearPassPlan {
    pub clear: ClearColor,
    pub store: bool,
}

/// The phases a frame passes through. `Idle` is both initial and terminal:
/// the machine restarts from it on the next redraw request.
#[derive(Clone, Copy, Debug, PartialEq, Eq, Structural)]
pub enum FramePhase {
    Idle,
    Acquiring,
    Acquired,
    Encoding,
    Submitted,
    Presented,
}

/// Drives one frame at a time through its lifecycle. Stateless across
/// frames apart from the phase, which always returns to `Idle`; the
/// renderer owns no GPU resources of its own.
#[derive(Clone, Copy, Debug, PartialEq, Eq, Structural)]
pub struct FrameRenderer {
    pub phase: FramePhase,
}

impl FrameRenderer {
    /// A renderer between frames.
    pub fn new() -> (r: FrameRenderer)
        ensures
            r.phase is Idle,
    {
        FrameRenderer { phase: FramePhase::Idle }
    }

    /// A redraw request starts a frame: the renderer asks the harness to
    /// acquire a presentable image from the surface (which may block
    /// briefly under FIFO presentation).
    pub fn begin_frame(&mut self)
        requires
            old(self).phase is Idle,
        ensures
            final(self).phase is Acquiring,
    {
        self.phase = FramePhase::Acquiring;
    }

    /// Acquisition failed: the frame ends here, the machine returns to
    /// `Idle`, and the failure is classified for the recovery policy.
    pub fn acquire_failed(&mut self, e: &SurfaceError) -> (r: RenderError)
        requires
            old(self).phase is Acquiring,
        ensures
            final(self).phase is Idle,
            r == classify_spec(*e),
    {
        self.phase = FramePhase::Idle;
        classify_surface_error(e)
    }

    /// Acquisition succeeded: the harness holds a presentable image.
    pub fn acquire_succeeded(&mut self)
        requires
            old(self).phase is Acquiring,
        ensures
            final(self).phase is Acquired,
    {
        self.phase = FramePhase::Acquired;
    }

    /// Plans the one clear-only pass for the acquired image: its load
    /// operation clears to the current color and its store operation
    /// persists the result so the image can be presented.
    pub fn encode_clear_pass(&mut self, color: &ColorState) -> (p: ClearPassPlan)
        requires
            old(self).phase is Acquired,
        ensures
            final(self).phase is Encoding,
            p.clear == color.clear_color,
            p.store,
    {
        self.phase = FramePhase::Encoding;
        ClearPassPlan { clear: color.clear_color, store: true }
    }

    /// The one recorded command sequence went to the queue. This system
    /// issues exactly one submission per frame, so FIFO queue order needs
    /// no further care.
    pub fn submitted(&mut self)
        requires
            old(self).phase is Encoding,
        ensures
            final(self).phase is Submitted,
    {
        self.phase = FramePhase::Submitted;
    }

    /// Presentation of the acquired image has been requested. Present is
    /// asynchronous with respect to future frames; nothing waits for the
    /// image to appear on screen.
    pub fn presented(&mut self)
        requires
            old(self).phase is Submitted,
        ensures
            final(self).phase is Presented,
    {
        self.phase = FramePhase::Presented;
    }

    /// Ends a successful frame. Success is reported only after present has
    /// been requested; the machine returns to `Idle` for the next redraw.
    pub fn finish_frame(&mut self) -> (r: Result<(), RenderError>)
        requires
            old(self).phase is Presented,
        ensures
            final(self).phase is Idle,
            r is Ok,
    {
        self.phase = FramePhase::Idle;
        Ok(())
    }
}

} // verus!
