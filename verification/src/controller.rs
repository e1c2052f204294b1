//! The event loop controller: routing and recovery policy.
//!
//! On each platform tick the controller routes input to the color state,
//! resize requests to the graphics configuration, and render failures to
//! the three-way recovery policy: reconfigure on loss, terminate on fatal,
//! skip and log on transient. The host harness pumps the real platform
//! events, translates them to plain values, performs the actions the
//! controller returns, and hands back each render outcome.

use vstd::prelude::*;

use crate::color::ColorState;
use crate::color::pointer_color;
use crate::context::GraphicsContext;
use crate::renderer::RenderError;

verus! {

/// The platform window events the loop reads, as plain values: pointer
/// moves with their position, resizes and scale-factor changes with the new
/// physical pixel dimensions, close requests, and key input with its key
/// identity and press state. Everything else is `Other`.
#[derive(Clone, Copy, Debug, PartialEq, Eq, Structural)]
pub enum WindowEventKind {
    CursorMoved { x: u32, y: u32 },
    Resized { width: u32, height: u32 },
    ScaleFactorChanged { width: u32, height: u32 },
    CloseRequested,
    KeyboardKey { pressed: bool, escape: bool },
    Other,
}

impl WindowEventKind {
    /// Whether the event carries a resize request with nonzero dimensions,
    /// the only window events that oblige a surface reconfiguration.
    pub open spec fn requests_reconfiguration(self) -> bool {
        match self {
            WindowEventKind::Resized { width, height } => width > 0 && height > 0,
            WindowEventKind::ScaleFactorChanged { width, height } => width > 0 && height > 0,
            _ => false,
        }
    }
}

/// What the controller asks of the harness after a window event.
#[derive(Clone, Copy, Debug, PartialEq, Eq, Structural)]
pub struct EventResponse {
    /// The event was consumed (default platform handling suppressed).
    pub handled: bool,
    /// The real surface must be reconfigured against the existing device
    /// with the controller's current configuration.
    pub reconfigure: bool,
}

/// What the controller asks of the harness after a render outcome.
#[derive(Clone, Copy, Debug, PartialEq, Eq, Structural)]
pub struct RedrawResponse {
    /// Reconfigure the real surface with the controller's current
    /// configuration (the recovery from a surface loss).
    pub reconfigure: bool,
    /// Surface the error to the diagnostic sink; the frame was dropped.
    pub log_transient: bool,
}

/// One step of the steady-state loop, for reasoning about whole runs: a
/// window event, a render outcome handed back after a redraw, or the
/// "events drained" tick.
#[derive(Clone, Copy, Debug)]
pub enum LoopEvent {
    Window(WindowEventKind),
    RenderCompleted(Result<(), RenderError>),
    EventsDrained,
}

/// Drives the steady-state loop: owns the configuration state, the color
/// state, and the termination flag. `running` starts true and, once false,
/// never becomes true again.
#[derive(Clone, Copy, Debug, PartialEq, Eq, Structural)]
pub struct EventLoopController {
    pub context: GraphicsContext,
    pub color: ColorState,
    pub running: bool,
}

impl EventLoopController {
    /// The controller is well formed when its configuration is live.
    pub open spec fn wf(self) -> bool {
        self.context.wf()
    }

    /// What a window event leaves behind: pointer moves rewrite the clear
    /// color from the current surface size; close requests and pressed
    /// escape keys clear the termination flag; resizes and scale-factor
    /// changes reconfigure the dimensions; everything else changes nothing.
    pub open spec fn window_step(self, ev: WindowEventKind) -> EventLoopController {
        match ev {
            WindowEventKind::CursorMoved { x, y } => EventLoopController {
                color: ColorState {
                    clear_color: pointer_color(
                        x,
                        y,
                        self.context.size.width,
                        self.context.size.height,
                    ),
                },
                ..self
            },
            WindowEventKind::Resized { width, height } => EventLoopController {
                context: self.context.resize_spec(width, height),
                ..self
            },
            WindowEventKind::ScaleFactorChanged { width, height } => EventLoopController {
                context: self.context.resize_spec(width, height),
                ..self
            },
            WindowEventKind::CloseRequested => EventLoopController { running: false, ..self },
            WindowEventKind::KeyboardKey { pressed, escape } => if pressed && escape {
                EventLoopController { running: false, ..self }
            } else {
                self
            },
            WindowEventKind::Other => self,
        }
    }

    /// What a render outcome leaves behind: success and transient failures
    /// change nothing; a loss reconfigures with the pre-loss dimensions
    /// (which, the configuration being live, changes nothing either); a
    /// fatal failure clears the termination flag.
    pub open spec fn redraw_step(self, outcome: Result<(), RenderError>) -> EventLoopController {
        match outcome {
            Ok(_) => self,
            Err(RenderError::Lost) => EventLoopController {
                context: self.context.resize_spec(self.context.size.width, self.context.size.height),
                ..self
            },
            Err(RenderError::Fatal) => EventLoopController { running: false, ..self },
            Err(RenderError::Transient) => self,
        }
    }

    /// One loop step. A render outcome can only arrive while the loop is
    /// running, since a stopped controller requests no redraw and permits
    /// no render.
    pub open spec fn loop_step(self, ev: LoopEvent) -> EventLoopController {
        match ev {
            LoopEvent::Window(w) => self.window_step(w),
            LoopEvent::RenderCompleted(outcome) => if self.running {
                self.redraw_step(outcome)
            } else {
                self
            },
            LoopEvent::EventsDrained => self,
        }
    }

    /// A whole run: the loop steps folded over an event sequence.
    pub open spec fn loop_steps(self, evs: Seq<LoopEvent>) -> EventLoopController
        decreases evs.len(),
    {
        if evs.len() == 0 {
            self
        } else {
            self.loop_step(evs[0]).loop_steps(evs.drop_first())
        }
    }

    /// Starts the loop over a freshly created context and color state.
    pub fn new(context: GraphicsContext, color: ColorState) -> (c: EventLoopController)
        requires
            context.wf(),
        ensures
            c.context == context,
            c.color == color,
            c.running,
            c.wf(),
    {
        EventLoopController { context, color, running: true }
    }

    /// The per-frame extension point called before each render; reserved
    /// for future per-frame logic and deliberately a no-op.
    pub fn update(&mut self)
        ensures
            *final(self) == *old(self),
    {
    }

    /// Routes one window event. Pointer moves are consumed (`handled`);
    /// every other event is passed through unhandled, after the controller
    /// has applied its own routing: close and pressed-escape terminate,
    /// resize and scale-factor change reconfigure the dimensions.
    pub fn handle_window_event(&mut self, ev: &WindowEventKind) -> (r: EventResponse)
        requires
            old(self).wf(),
        ensures
            *final(self) == old(self).window_step(*ev),
            final(self).wf(),
            r.handled <==> *ev is CursorMoved,
            r.reconfigure == ev.requests_reconfiguration(),
            final(self).running ==> old(self).running,
    {
        match ev {
            WindowEventKind::CursorMoved { x, y } => {
                let width = self.context.size.width;
                let height = self.context.size.height;
                self.color.apply_pointer_position(*x, *y, width, height);
                EventResponse { handled: true, reconfigure: false }
            },
            WindowEventKind::Resized { width, height } => {
                let reconfigure = self.context.resize(*width, *height);
                EventResponse { handled: false, reconfigure }
            },
            WindowEventKind::ScaleFactorChanged { width, height } => {
                let reconfigure = self.context.resize(*width, *height);
                EventResponse { handled: false, reconfigure }
            },
            WindowEventKind::CloseRequested => {
                self.running = false;
                EventResponse { handled: false, reconfigure: false }
            },
            WindowEventKind::KeyboardKey { pressed, escape } => {
                if *pressed && *escape {
                    self.running = false;
                }
                EventResponse { handled: false, reconfigure: false }
            },
            WindowEventKind::Other => EventResponse { handled: false, reconfigure: false },
        }
    }

    /// Whether a render may be issued this tick: only while the loop runs.
    pub fn should_render(&self) -> (r: bool)
        ensures
            r == self.running,
    {
        self.running
    }

    /// Routes one render outcome. A loss is answered, within the same tick,
    /// by exactly one resize with the pre-loss dimensions — which, the
    /// configuration being live, leaves it identical — and a request to
    /// reconfigure the real surface. A fatal failure terminates the loop. A
    /// transient failure changes nothing and is only surfaced to the
    /// diagnostic sink; success changes nothing at all.
    pub fn handle_render_outcome(&mut self, outcome: Result<(), RenderError>) -> (r:
        RedrawResponse)
        requires
            old(self).wf(),
        ensures
            *final(self) == old(self).redraw_step(outcome),
            final(self).wf(),
            final(self).context == old(self).context,
            r.reconfigure <==> outcome matches Err(RenderError::Lost),
            r.log_transient <==> outcome matches Err(RenderError::Transient),
            final(self).running == (old(self).running && !(outcome matches Err(
                RenderError::Fatal,
            ))),
            outcome matches Err(RenderError::Transient) ==> *final(self) == *old(self),
            outcome is Ok ==> *final(self) == *old(self),
    {
        proof {
            crate::context::lemma_resize_current_is_identity(self.context);
        }
        match outcome {
            Ok(_) => RedrawResponse { reconfigure: false, log_transient: false },
            Err(RenderError::Lost) => {
                let width = self.context.size.width;
                let height = self.context.size.height;
                let reconfigured = self.context.resize(width, height);
                RedrawResponse { reconfigure: reconfigured, log_transient: false }
            },
            Err(RenderError::Fatal) => {
                self.running = false;
                RedrawResponse { reconfigure: false, log_transient: false }
            },
            Err(RenderError::Transient) => RedrawResponse {
                reconfigure: false,
                log_transient: true,
            },
        }
    }

    /// The "events drained" tick: requests exactly one redraw while the
    /// loop runs, and none once it has terminated.
    pub fn handle_events_cleared(&self) -> (request_redraw: bool)
        ensures
            request_redraw == self.running,
    {
        self.running
    }

    /// No single loop step restarts a terminated loop.
    pub proof fn lemma_step_keeps_termination(self, ev: LoopEvent)
        requires
            !self.running,
        ensures
            !self.loop_step(ev).running,
    {
    }

    /// Termination is absorbing: once the controller has stopped running,
    /// no sequence of further platform events or render outcomes restarts
    /// it, so no further redraw is requested and no further render is
    /// permitted.
    pub proof fn lemma_termination_is_absorbing(self, evs: Seq<LoopEvent>)
        requires
            !self.running,
        ensures
            !self.loop_steps(evs).running,
        decreases evs.len(),
    {
        if evs.len() > 0 {
            self.lemma_step_keeps_termination(evs[0]);
            self.loop_step(evs[0]).lemma_termination_is_absorbing(evs.drop_first());
        }
    }

    /// A fatal render outcome terminates the loop for good: whatever events
    /// follow, the controller never permits another render.
    pub proof fn lemma_fatal_terminates(self, evs: Seq<LoopEvent>)
        ensures
            !self.redraw_step(Err(RenderError::Fatal)).running,
            !self.redraw_step(Err(RenderError::Fatal)).loop_steps(evs).running,
    {
        self.redraw_step(Err(RenderError::Fatal)).lemma_termination_is_absorbing(evs);
    }

    /// A close request terminates the loop for good in the same way.
    pub proof fn lemma_close_terminates(self, evs: Seq<LoopEvent>)
        ensures
            !self.window_step(WindowEventKind::CloseRequested).running,
            !self.window_step(WindowEventKind::CloseRequested).loop_steps(evs).running,
    {
        self.window_step(WindowEventKind::CloseRequested).lemma_termination_is_absorbing(evs);
    }
}

} // verus!
