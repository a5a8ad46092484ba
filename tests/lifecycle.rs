use wgsl_canvas::{
    compose_shader, CanvasCompileStatus, CanvasMessage, CanvasPaintSource, FrameStart,
    RenderTarget, SurfaceLifecycle, SurfaceTick, TextureSlots, WebCanvasError,
};

fn target(width: u32, height: u32, handle: u64) -> RenderTarget<u64> {
    RenderTarget { width, height, texture: handle }
}

/// Draws one frame into `slots`, allocating `handle` when asked to; returns
/// the presented handle and whether an allocation and an eviction happened.
fn frame(slots: &mut TextureSlots<u64>, w: u32, h: u32, handle: u64) -> (Option<u64>, bool, Option<u64>) {
    match slots.begin_frame(w, h) {
        FrameStart::Skip => (None, false, None),
        FrameStart::Reuse => {
            assert!(slots.finish_frame());
            (slots.displayed().map(|t| t.texture), false, None)
        }
        FrameStart::Allocate { evicted } => {
            assert!(slots.install_next(target(w, h, handle)).is_none());
            assert!(slots.finish_frame());
            (slots.displayed().map(|t| t.texture), true, evicted.map(|t| t.texture))
        }
    }
}

type Source = CanvasPaintSource<String, u64>;

/// Runs one host frame against `source`, as the host-managed adapter does:
/// apply updates, rebuild the pipeline if needed, then draw.
fn host_frame(source: &mut Source, w: u32, h: u32, handle: u64) -> Option<u64> {
    if let Some(text) = source.process_messages() {
        assert!(source.replace_pipeline(format!("pipeline:{}", text)));
    }
    match source.begin_frame(w, h) {
        FrameStart::Skip => return None,
        FrameStart::Reuse => {}
        FrameStart::Allocate { .. } => {
            assert!(source.install_next(target(w, h, handle)).is_none());
        }
    }
    assert!(source.finish_frame());
    source.active().unwrap().targets.displayed().map(|t| t.texture)
}

fn resume(source: &mut Source) {
    let text = source.pending_shader();
    source.resume(format!("pipeline:{}", text));
}

#[test]
fn compile_status_handshake() {
    assert_eq!(CanvasCompileStatus::NeedsCompile.after_request(CanvasCompileStatus::Compiling), CanvasCompileStatus::Compiling);
    assert_eq!(CanvasCompileStatus::FinishedCompile.after_request(CanvasCompileStatus::Compiling), CanvasCompileStatus::FinishedCompile);
    assert_eq!(CanvasCompileStatus::Compiling.after_request(CanvasCompileStatus::FinishedCompile), CanvasCompileStatus::FinishedCompile);
    assert_eq!(CanvasCompileStatus::NeedsCompile.after_request(CanvasCompileStatus::FinishedCompile), CanvasCompileStatus::FinishedCompile);
    assert_eq!(CanvasCompileStatus::Compiling.after_request(CanvasCompileStatus::Compiling), CanvasCompileStatus::Compiling);
    assert_eq!(CanvasCompileStatus::FinishedCompile.after_request(CanvasCompileStatus::NeedsCompile), CanvasCompileStatus::FinishedCompile);
}

#[test]
fn compile_status_request_reports_honoured() {
    let mut status = CanvasCompileStatus::FinishedCompile;
    assert!(!status.request(CanvasCompileStatus::Compiling));
    assert_eq!(status, CanvasCompileStatus::FinishedCompile);
    status.begin_request();
    assert_eq!(status, CanvasCompileStatus::NeedsCompile);
    assert!(status.request(CanvasCompileStatus::Compiling));
    assert!(!status.request(CanvasCompileStatus::Compiling));
    assert!(status.request(CanvasCompileStatus::FinishedCompile));
    assert_eq!(status, CanvasCompileStatus::FinishedCompile);
}

#[test]
fn shader_text_is_preamble_then_fragment() {
    assert_eq!(compose_shader("fn vs_main() {}\n", "fn fs_main() {}"), "fn vs_main() {}\nfn fs_main() {}");
    assert_eq!(compose_shader("", "x"), "x");
    assert_eq!(compose_shader("v", ""), "v");
}

#[test]
fn empty_frame_draws_nothing() {
    let mut slots: TextureSlots<u64> = TextureSlots::new();
    assert!(matches!(slots.begin_frame(0, 500), FrameStart::Skip));
    assert!(matches!(slots.begin_frame(500, 0), FrameStart::Skip));
    assert!(slots.next().is_none());
    assert!(slots.displayed().is_none());
}

#[test]
fn same_size_allocates_once_per_slot() {
    let mut slots: TextureSlots<u64> = TextureSlots::new();
    assert_eq!(frame(&mut slots, 500, 500, 1), (Some(1), true, None));
    assert_eq!(frame(&mut slots, 500, 500, 2), (Some(2), true, None));
    assert_eq!(frame(&mut slots, 500, 500, 3), (Some(1), false, None));
    assert_eq!(frame(&mut slots, 500, 500, 4), (Some(2), false, None));
}

#[test]
fn resize_evicts_then_allocates_once() {
    let mut slots: TextureSlots<u64> = TextureSlots::new();
    frame(&mut slots, 500, 500, 1);
    frame(&mut slots, 500, 500, 2);
    assert_eq!(frame(&mut slots, 300, 200, 3), (Some(3), true, Some(1)));
    assert_eq!(frame(&mut slots, 300, 200, 4), (Some(4), true, Some(2)));
    assert_eq!(frame(&mut slots, 300, 200, 5), (Some(3), false, None));
}

#[test]
fn install_hands_back_displaced_target() {
    let mut slots: TextureSlots<u64> = TextureSlots::new();
    assert!(slots.install_next(target(4, 4, 7)).is_none());
    let old = slots.install_next(target(4, 4, 8)).unwrap();
    assert_eq!(old.texture, 7);
    assert_eq!(slots.next().unwrap().texture, 8);
}

#[test]
fn last_update_while_suspended_is_applied_on_resume() {
    let mut source: Source = CanvasPaintSource::new("default".to_string());
    source.enqueue(CanvasMessage::SetShader("a".to_string()));
    source.enqueue(CanvasMessage::SetShader("b".to_string()));
    source.enqueue(CanvasMessage::SetShader("c".to_string()));
    assert_eq!(host_frame(&mut source, 500, 500, 1), None);
    resume(&mut source);
    assert_eq!(source.active().unwrap().shader, "c");
    assert_eq!(source.active().unwrap().pipeline, "pipeline:c");
}

#[test]
fn suspended_renderer_draws_nothing() {
    let mut source: Source = CanvasPaintSource::new("s".to_string());
    assert!(matches!(source.begin_frame(500, 500), FrameStart::Skip));
    assert_eq!(source.install_next(target(1, 1, 9)).unwrap().texture, 9);
    assert!(!source.finish_frame());
    assert!(!source.replace_pipeline("p".to_string()));
    assert!(source.active().is_none());
    assert_eq!(source.process_messages(), None);
}

#[test]
fn zero_sized_render_returns_no_handle() {
    let mut source: Source = CanvasPaintSource::new("s".to_string());
    resume(&mut source);
    assert_eq!(host_frame(&mut source, 0, 500, 1), None);
    assert_eq!(host_frame(&mut source, 500, 0, 1), None);
    assert!(source.active().unwrap().targets.next().is_none());
}

#[test]
fn default_shader_then_red_update_gives_new_handle() {
    let mut source: Source = CanvasPaintSource::new("default".to_string());
    resume(&mut source);
    let h1 = host_frame(&mut source, 500, 500, 1).unwrap();
    assert_eq!(source.active().unwrap().pipeline, "pipeline:default");
    source.enqueue(CanvasMessage::SetShader("red".to_string()));
    let h2 = host_frame(&mut source, 500, 500, 2).unwrap();
    assert_ne!(h1, h2);
    assert_eq!(source.active().unwrap().pipeline, "pipeline:red");
    assert_eq!(source.active().unwrap().shader, "red");
}

#[test]
fn suspend_then_resume_rebuilds_from_applied_text() {
    let mut source: Source = CanvasPaintSource::new("default".to_string());
    resume(&mut source);
    source.enqueue(CanvasMessage::SetShader("x".to_string()));
    source.enqueue(CanvasMessage::SetShader("y".to_string()));
    host_frame(&mut source, 500, 500, 1);
    source.suspend();
    assert!(source.active().is_none());
    resume(&mut source);
    assert_eq!(source.active().unwrap().shader, "y");
    assert!(source.active().unwrap().targets.next().is_none());
    assert!(source.active().unwrap().targets.displayed().is_none());
}

#[test]
fn surface_configures_once_after_setup() {
    let mut surface = SurfaceLifecycle::new();
    assert_eq!(surface.tick(), SurfaceTick::Idle);
    assert_eq!(surface.tick(), SurfaceTick::Idle);
    surface.mark_ready();
    assert_eq!(surface.tick(), SurfaceTick::ConfigureAndDraw);
    assert_eq!(surface.tick(), SurfaceTick::Draw);
    assert_eq!(surface.tick(), SurfaceTick::Draw);
}

#[test]
fn error_messages_name_the_failed_step() {
    assert_eq!(WebCanvasError::AdapterFailed.message(), "failed requesting adapter");
    assert_eq!(WebCanvasError::DeviceFailed.message(), "failed to request device");
    assert_eq!(WebCanvasError::CompileFailed.message(), "failed to compile shader");
}
