use clearloop::color::ColorState;
use clearloop::renderer::FramePhase;
use clearloop::renderer::FrameRenderer;
use clearloop::renderer::RenderError;
use clearloop::renderer::SurfaceError;
use clearloop::renderer::classify_surface_error;

#[test]
fn lost_surface_is_classified_recoverable() {
    assert_eq!(classify_surface_error(&SurfaceError::Lost), RenderError::Lost);
}

#[test]
fn out_of_memory_is_classified_fatal() {
    assert_eq!(classify_surface_error(&SurfaceError::OutOfMemory), RenderError::Fatal);
}

#[test]
fn other_surface_errors_are_classified_transient() {
    assert_eq!(classify_surface_error(&SurfaceError::Timeout), RenderError::Transient);
    assert_eq!(classify_surface_error(&SurfaceError::Outdated), RenderError::Transient);
}

#[test]
fn successful_frame_walks_the_whole_lifecycle() {
    let mut color = ColorState::new();
    color.apply_pointer_position(225, 200, 450, 400);

    let mut frame = FrameRenderer::new();
    assert_eq!(frame.phase, FramePhase::Idle);

    frame.begin_frame();
    assert_eq!(frame.phase, FramePhase::Acquiring);

    frame.acquire_succeeded();
    assert_eq!(frame.phase, FramePhase::Acquired);

    let plan = frame.encode_clear_pass(&color);
    assert_eq!(frame.phase, FramePhase::Encoding);
    assert_eq!(plan.clear, color.clear_color);
    assert!(plan.store);

    frame.submitted();
    assert_eq!(frame.phase, FramePhase::Submitted);

    frame.presented();
    assert_eq!(frame.phase, FramePhase::Presented);

    assert_eq!(frame.finish_frame(), Ok(()));
    assert_eq!(frame.phase, FramePhase::Idle);
}

#[test]
fn failed_acquisition_ends_the_frame_classified() {
    let mut frame = FrameRenderer::new();
    frame.begin_frame();
    let err = frame.acquire_failed(&SurfaceError::Lost);
    assert_eq!(err, RenderError::Lost);
    assert_eq!(frame.phase, FramePhase::Idle);

    frame.begin_frame();
    let err = frame.acquire_failed(&SurfaceError::OutOfMemory);
    assert_eq!(err, RenderError::Fatal);
    assert_eq!(frame.phase, FramePhase::Idle);

    frame.begin_frame();
    let err = frame.acquire_failed(&SurfaceError::Timeout);
    assert_eq!(err, RenderError::Transient);
    assert_eq!(frame.phase, FramePhase::Idle);
}
