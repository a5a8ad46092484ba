//! Decision core of a live fragment-shader canvas: the compile-status
//! handshake, shader text composition, coalescing of shader updates, the
//! Active/Suspended renderer lifecycle and the double-buffered frame targets.
//! GPU objects are carried as opaque type parameters; building pipelines,
//! allocating textures and submitting draws is done by the caller.
pub mod compile_status;
pub mod paint_source;
pub mod shader;
pub mod surface;
pub mod texture_slots;

pub use compile_status::CanvasCompileStatus;
pub use paint_source::{ActiveCanvasRenderer, CanvasPaintSource, CanvasRendererState};
pub use shader::{compose_shader, CanvasMessage};
pub use surface::{
    SurfaceLifecycle, SurfaceTick, WebCanvasError, FRAGMENT_ENTRY_POINT, QUAD_INSTANCE_COUNT,
    QUAD_VERTEX_COUNT, VERTEX_ENTRY_POINT,
};
pub use texture_slots::{FrameStart, RenderTarget, TextureSlots};
