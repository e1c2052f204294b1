use clearloop::color::ColorState;
use clearloop::color::Ratio;
use clearloop::context::GraphicsContext;
use clearloop::controller::EventLoopController;
use clearloop::controller::WindowEventKind;
use clearloop::renderer::RenderError;

fn fresh_controller(width: u32, height: u32) -> EventLoopController {
    let context = GraphicsContext::create(true, true, Some(7), width, height).unwrap();
    EventLoopController::new(context, ColorState::new())
}

fn ratio_value(r: &Ratio) -> f64 {
    r.num as f64 / r.den as f64
}

#[test]
fn pointer_moves_are_consumed_and_recolor() {
    let mut c = fresh_controller(450, 400);

    let r = c.handle_window_event(&WindowEventKind::CursorMoved { x: 0, y: 0 });
    assert!(r.handled);
    assert!(!r.reconfigure);
    assert_eq!(ratio_value(&c.color.clear_color.r), 0.0);
    assert_eq!(ratio_value(&c.color.clear_color.g), 0.0);
    assert_eq!(ratio_value(&c.color.clear_color.b), 0.0);
    assert_eq!(ratio_value(&c.color.clear_color.a), 1.0);

    let r = c.handle_window_event(&WindowEventKind::CursorMoved { x: 450, y: 400 });
    assert!(r.handled);
    assert_eq!(ratio_value(&c.color.clear_color.r), 1.0);
    assert_eq!(ratio_value(&c.color.clear_color.g), 1.0);
    assert_eq!(ratio_value(&c.color.clear_color.b), 1.0);
    assert_eq!(ratio_value(&c.color.clear_color.a), 1.0);

    let r = c.handle_window_event(&WindowEventKind::CursorMoved { x: 225, y: 200 });
    assert!(r.handled);
    assert_eq!(ratio_value(&c.color.clear_color.r), 0.5);
    assert_eq!(ratio_value(&c.color.clear_color.g), 0.5);
    assert_eq!(ratio_value(&c.color.clear_color.b), 0.25);
    assert_eq!(ratio_value(&c.color.clear_color.a), 1.0);

    assert!(c.running);
}

#[test]
fn resize_events_are_routed_to_the_configuration() {
    let mut c = fresh_controller(450, 400);

    let r = c.handle_window_event(&WindowEventKind::Resized { width: 800, height: 600 });
    assert!(!r.handled);
    assert!(r.reconfigure);
    assert_eq!(c.context.config.width, 800);
    assert_eq!(c.context.config.height, 600);

    let r = c.handle_window_event(&WindowEventKind::ScaleFactorChanged { width: 1600, height: 1200 });
    assert!(!r.handled);
    assert!(r.reconfigure);
    assert_eq!(c.context.size.width, 1600);
    assert_eq!(c.context.size.height, 1200);
}

#[test]
fn minimize_and_restore_through_the_controller_is_identity() {
    let mut c = fresh_controller(450, 400);
    let initial = c.context;

    let r = c.handle_window_event(&WindowEventKind::Resized { width: 0, height: 0 });
    assert!(!r.reconfigure);
    assert_eq!(c.context, initial);

    let r = c.handle_window_event(&WindowEventKind::Resized { width: 450, height: 400 });
    assert!(r.reconfigure);
    assert_eq!(c.context, initial);
}

#[test]
fn close_request_terminates_the_loop() {
    let mut c = fresh_controller(450, 400);
    let r = c.handle_window_event(&WindowEventKind::CloseRequested);
    assert!(!r.handled);
    assert!(!c.running);
    assert!(!c.should_render());
    assert!(!c.handle_events_cleared());
}

#[test]
fn pressed_escape_terminates_and_other_keys_do_not() {
    let mut c = fresh_controller(450, 400);

    let r = c.handle_window_event(&WindowEventKind::KeyboardKey { pressed: true, escape: false });
    assert!(!r.handled);
    assert!(c.running);

    let r = c.handle_window_event(&WindowEventKind::KeyboardKey { pressed: false, escape: true });
    assert!(!r.handled);
    assert!(c.running);

    let r = c.handle_window_event(&WindowEventKind::KeyboardKey { pressed: true, escape: true });
    assert!(!r.handled);
    assert!(!c.running);
}

#[test]
fn unrecognized_events_are_passed_through_untouched() {
    let mut c = fresh_controller(450, 400);
    let before = c;
    let r = c.handle_window_event(&WindowEventKind::Other);
    assert!(!r.handled);
    assert!(!r.reconfigure);
    assert_eq!(c, before);
}

#[test]
fn lost_render_reconfigures_with_the_pre_loss_dimensions() {
    let mut c = fresh_controller(450, 400);
    let before = c;
    let r = c.handle_render_outcome(Err(RenderError::Lost));
    assert!(r.reconfigure);
    assert!(!r.log_transient);
    assert_eq!(c.context, before.context);
    assert!(c.running);
}

#[test]
fn fatal_render_terminates_without_further_renders() {
    let mut c = fresh_controller(450, 400);
    let r = c.handle_render_outcome(Err(RenderError::Fatal));
    assert!(!r.reconfigure);
    assert!(!r.log_transient);
    assert!(!c.running);
    assert!(!c.should_render());
    assert!(!c.handle_events_cleared());

    c.handle_window_event(&WindowEventKind::CursorMoved { x: 1, y: 1 });
    c.handle_window_event(&WindowEventKind::Resized { width: 10, height: 10 });
    assert!(!c.should_render());
}

#[test]
fn transient_render_changes_nothing_but_is_logged() {
    let mut c = fresh_controller(450, 400);
    c.handle_window_event(&WindowEventKind::CursorMoved { x: 225, y: 200 });
    let before = c;
    let r = c.handle_render_outcome(Err(RenderError::Transient));
    assert!(!r.reconfigure);
    assert!(r.log_transient);
    assert_eq!(c, before);
    assert!(c.running);
}

#[test]
fn successful_render_changes_nothing() {
    let mut c = fresh_controller(450, 400);
    let before = c;
    let r = c.handle_render_outcome(Ok(()));
    assert!(!r.reconfigure);
    assert!(!r.log_transient);
    assert_eq!(c, before);
}

#[test]
fn close_after_successful_render_cycles_stops_the_loop() {
    let mut c = fresh_controller(450, 400);

    for _ in 0..5 {
        assert!(c.handle_events_cleared());
        assert!(c.should_render());
        c.update();
        let r = c.handle_render_outcome(Ok(()));
        assert!(!r.reconfigure);
        assert!(!r.log_transient);
    }

    c.handle_window_event(&WindowEventKind::CloseRequested);
    assert!(!c.handle_events_cleared());
    assert!(!c.should_render());

    c.handle_window_event(&WindowEventKind::Other);
    c.handle_window_event(&WindowEventKind::CursorMoved { x: 3, y: 4 });
    assert!(!c.handle_events_cleared());
    assert!(!c.should_render());
}
