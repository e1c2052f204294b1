//! The graphics context's configuration and its resize invariant.
//!
//! The real device, queue and surface are opaque handles owned by the host
//! harness; what the control logic reads and mutates is the surface
//! configuration (format, dimensions, presentation mode, usage) and the
//! current size that mirrors it. A reconfiguration with a zero dimension is
//! rejected and the prior configuration retained, so the configuration's
//! dimensions stay positive while it is live.

use vstd::prelude::*;

verus! {

/// The presentation policy. Strict vsync-paced FIFO presentation (display in
/// submission order, capped at the display's refresh rate) is the only
/// supported mode.
#[derive(Clone, Copy, Debug, PartialEq, Eq, Structural)]
pub enum PresentMode {
    Fifo,
}

/// How the surface's textures are used. Render-attachment usage (textures
/// written by a render pass) is the only usage this system needs.
#[derive(Clone, Copy, Debug, PartialEq, Eq, Structural)]
pub enum SurfaceUsage {
    RenderAttachment,
}

/// How the surface creates its presentable textures. `format` is an opaque
/// identifier of the pixel format the backend reported as natively preferred
/// for the chosen adapter; the host harness keeps the mapping to the real
/// format value.
#[derive(Clone, Copy, Debug, PartialEq, Eq, Structural)]
pub struct SurfaceConfiguration {
    pub usage: SurfaceUsage,
    pub format: u32,
    pub width: u32,
    pub height: u32,
    pub present_mode: PresentMode,
}

/// The current surface size in physical pixels; mirrors the configuration's
/// dimensions and is used to interpret pointer coordinates.
#[derive(Clone, Copy, Debug, PartialEq, Eq, Structural)]
pub struct SurfaceSize {
    pub width: u32,
    pub height: u32,
}

/// Failure of the one-time adapter/device negotiation at startup.
/// Unrecoverable: the caller has no fallback and must abort startup.
#[derive(Clone, Copy, Debug, PartialEq, Eq, Structural)]
pub enum InitError {
    /// No physical adapter compatible with the window's surface exists.
    NoAdapter,
    /// The adapter refused to grant a logical device and queue.
    NoDevice,
    /// The surface reports no natively preferred pixel format.
    NoSurfaceFormat,
}

impl InitError {
    /// A short diagnostic description of the failure.
    pub fn describe(&self) -> (s: &'static str)
        ensures
            s@ =~= match *self {
                InitError::NoAdapter => "no compatible adapter"@,
                InitError::NoDevice => "no compatible device"@,
                InitError::NoSurfaceFormat => "no preferred surface format"@,
            },
    {
        match self {
            InitError::NoAdapter => "no compatible adapter",
            InitError::NoDevice => "no compatible device",
            InitError::NoSurfaceFormat => "no preferred surface format",
        }
    }
}

/// The configuration state of the graphics context: the surface
/// configuration and the current size mirroring it.
#[derive(Clone, Copy, Debug, PartialEq, Eq, Structural)]
pub struct GraphicsContext {
    pub config: SurfaceConfiguration,
    pub size: SurfaceSize,
}

impl GraphicsContext {
    /// The configuration is live: both dimensions are positive and the
    /// current size mirrors the configuration.
    pub open spec fn wf(self) -> bool {
        &&& self.config.width > 0
        &&& self.config.height > 0
        &&& self.size.width == self.config.width
        &&& self.size.height == self.config.height
    }

    /// The configuration produced at startup for a freshly negotiated
    /// device: render-attachment usage, the reported preferred format, the
    /// window's size, FIFO presentation.
    pub open spec fn initial_spec(format: u32, width: u32, height: u32) -> GraphicsContext {
        GraphicsContext {
            config: SurfaceConfiguration {
                usage: SurfaceUsage::RenderAttachment,
                format: format,
                width: width,
                height: height,
                present_mode: PresentMode::Fifo,
            },
            size: SurfaceSize { width: width, height: height },
        }
    }

    /// What `resize` leaves behind: with a zero dimension the request is
    /// suppressed and the state is unchanged; otherwise both the
    /// configuration and the mirrored size take the new dimensions and every
    /// other field is retained.
    pub open spec fn resize_spec(self, width: u32, height: u32) -> GraphicsContext {
        if width > 0 && height > 0 {
            GraphicsContext {
                config: SurfaceConfiguration {
                    usage: self.config.usage,
                    format: self.config.format,
                    width: width,
                    height: height,
                    present_mode: self.config.present_mode,
                },
                size: SurfaceSize { width: width, height: height },
            }
        } else {
            self
        }
    }

    /// Decides the outcome of the one-time adapter/device negotiation. The
    /// host harness performs the backend calls (request an adapter
    /// compatible with the surface, request a device and queue from it, ask
    /// the surface for its preferred format) and hands in their outcomes;
    /// this function either rejects the combination with the exact
    /// `InitError` owed, or builds the initial live configuration.
    pub fn create(
        adapter_found: bool,
        device_granted: bool,
        preferred_format: Option<u32>,
        width: u32,
        height: u32,
    ) -> (r: Result<GraphicsContext, InitError>)
        requires
            width > 0,
            height > 0,
        ensures
            r is Ok <==> adapter_found && device_granted && preferred_format is Some,
            r matches Ok(c) ==> {
                &&& c == Self::initial_spec(preferred_format->0, width, height)
                &&& c.wf()
            },
            r matches Err(e) ==> e == Self::create_error_spec(
                adapter_found,
                device_granted,
                preferred_format,
            ),
    {
        if !adapter_found {
            Err(InitError::NoAdapter)
        } else if !device_granted {
            Err(InitError::NoDevice)
        } else {
            match preferred_format {
                None => Err(InitError::NoSurfaceFormat),
                Some(format) => Ok(GraphicsContext {
                    config: SurfaceConfiguration {
                        usage: SurfaceUsage::RenderAttachment,
                        format: format,
                        width: width,
                        height: height,
                        present_mode: PresentMode::Fifo,
                    },
                    size: SurfaceSize { width: width, height: height },
                }),
            }
        }
    }

    /// Which `InitError` a failed negotiation yields: the first step that
    /// failed, in the order the negotiation performs them.
    pub open spec fn create_error_spec(
        adapter_found: bool,
        device_granted: bool,
        preferred_format: Option<u32>,
    ) -> InitError {
        if !adapter_found {
            InitError::NoAdapter
        } else if !device_granted {
            InitError::NoDevice
        } else {
            InitError::NoSurfaceFormat
        }
    }

    /// Reconfigures the surface dimensions in place. A request with a zero
    /// dimension (platforms report zero-size during minimize, and
    /// reconfiguring a surface with a zero dimension is undefined on most
    /// backends) is suppressed: the prior configuration is retained and no
    /// reconfiguration is owed. The result tells the host harness whether it
    /// must reconfigure the real surface against the existing device.
    pub fn resize(&mut self, width: u32, height: u32) -> (reconfigured: bool)
        requires
            old(self).wf(),
        ensures
            *final(self) == old(self).resize_spec(width, height),
            final(self).wf(),
            reconfigured == (width > 0 && height > 0),
            width == 0 || height == 0 ==> *final(self) == *old(self),
            final(self).config.usage == old(self).config.usage,
            final(self).config.format == old(self).config.format,
            final(self).config.present_mode == old(self).config.present_mode,
    {
        if width > 0 && height > 0 {
            self.size = SurfaceSize { width, height };
            self.config.width = width;
            self.config.height = height;
            true
        } else {
            false
        }
    }
}

/// Resizing to a zero dimension is an exact no-op: the configuration it
/// leaves behind is the one it found.
pub proof fn lemma_resize_zero_is_noop(c: GraphicsContext, width: u32, height: u32)
    requires
        width == 0 || height == 0,
    ensures
        c.resize_spec(width, height) == c,
{
}

/// Resizing is idempotent: a second resize with the same dimensions leaves
/// the configuration the first one produced.
pub proof fn lemma_resize_idempotent(c: GraphicsContext, width: u32, height: u32)
    ensures
        c.resize_spec(width, height).resize_spec(width, height) == c.resize_spec(width, height),
{
}

/// Resizing a live configuration to its own current size changes nothing:
/// this is the recovery step after a surface loss, which reconfigures
/// against the last known-good dimensions.
pub proof fn lemma_resize_current_is_identity(c: GraphicsContext)
    requires
        c.wf(),
    ensures
        c.resize_spec(c.size.width, c.size.height) == c,
{
}

} // verus!
