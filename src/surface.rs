use vstd::prelude::*;
use vstd::string::StringExecFns;

verus! {

/// Entry point of the fixed vertex preamble.
pub const VERTEX_ENTRY_POINT: &'static str = "vs_main";

/// Entry point the user's fragment source must define.
pub const FRAGMENT_ENTRY_POINT: &'static str = "fs_main";

/// Vertices of the full-screen quad drawn each frame: two triangles.
pub const QUAD_VERTEX_COUNT: u32 = 6;

/// Instances drawn each frame.
pub const QUAD_INSTANCE_COUNT: u32 = 1;

/// Why the surface-presenting canvas could not be set up or rebuilt.
#[derive(Clone, Copy, Debug, PartialEq, Eq, Structural)]
pub enum WebCanvasError {
    AdapterFailed,
    DeviceFailed,
    CompileFailed,
}

impl WebCanvasError {
    pub open spec fn spec_message(self) -> Seq<char> {
        match self {
            WebCanvasError::AdapterFailed => "failed requesting adapter"@,
            WebCanvasError::DeviceFailed => "failed to request device"@,
            WebCanvasError::CompileFailed => "failed to compile shader"@,
        }
    }

    /// The human-readable description of the error.
    pub fn message(&self) -> (r: String)
        ensures
            r@ == self.spec_message(),
    {
        match self {
            WebCanvasError::AdapterFailed => String::from_str("failed requesting adapter"),
            WebCanvasError::DeviceFailed => String::from_str("failed to request device"),
            WebCanvasError::CompileFailed => String::from_str("failed to compile shader"),
        }
    }
}

/// Render-tick decisions of the surface-presenting canvas. Ticks before the
/// asynchronous setup has finished draw nothing; the surface is configured
/// once, on the first tick after setup.
pub struct SurfaceLifecycle {
    ready: bool,
    configured: bool,
}

/// What one render tick of the surface-presenting canvas does.
#[derive(Clone, Copy, Debug, PartialEq, Eq, Structural)]
pub enum SurfaceTick {
    /// Setup has not finished: nothing is drawn.
    Idle,
    /// Configure the surface, then acquire, draw and present.
    ConfigureAndDraw,
    /// Acquire, draw and present.
    Draw,
}

impl SurfaceLifecycle {
    pub closed spec fn is_ready(self) -> bool {
        self.ready
    }

    pub closed spec fn is_configured(self) -> bool {
        self.configured
    }

    pub fn new() -> (r: Self)
        ensures
            !r.is_ready(),
            !r.is_configured(),
    {
        SurfaceLifecycle { ready: false, configured: false }
    }

    /// Records that adapter, device and pipeline are in place.
    pub fn mark_ready(&mut self)
        ensures
            final(self).is_ready(),
            final(self).is_configured() == old(self).is_configured(),
    {
        self.ready = true;
    }

    /// Decides one render tick.
    pub fn tick(&mut self) -> (r: SurfaceTick)
        ensures
            !old(self).is_ready() ==> r == SurfaceTick::Idle && *final(self) == *old(self),
            old(self).is_ready() && !old(self).is_configured() ==> r == SurfaceTick::ConfigureAndDraw,
            old(self).is_ready() && old(self).is_configured() ==> r == SurfaceTick::Draw,
            final(self).is_ready() == old(self).is_ready(),
            final(self).is_configured() == (old(self).is_configured() || old(self).is_ready()),
    {
        if !self.ready {
            SurfaceTick::Idle
        } else if !self.configured {
            self.configured = true;
            SurfaceTick::ConfigureAndDraw
        } else {
            SurfaceTick::Draw
        }
    }
}

} // verus!
