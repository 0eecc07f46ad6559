use physics_engine::controls::{BodyKind, Button, Controls, InputEvent, Key, Placement};
use physics_engine::frame::{frame_wait_ms, step_ms, MILLISECS_PER_FRAME};

#[test]
fn controls_start_running_with_gravity() {
    let c = Controls::new();
    assert!(c.running && c.gravity);
    assert!(!c.debug && !c.wind && !c.polygon);
}

#[test]
fn quit_and_escape_stop_the_loop() {
    let mut c = Controls::new();
    assert_eq!(c.handle(InputEvent::Quit, true), None);
    assert!(!c.running);
    let mut c = Controls::new();
    assert_eq!(c.handle(InputEvent::KeyDown(Key::Escape), false), None);
    assert!(!c.running);
}

#[test]
fn keys_toggle_switches() {
    let mut c = Controls::new();
    c.handle(InputEvent::KeyDown(Key::D), true);
    c.handle(InputEvent::KeyDown(Key::G), true);
    c.handle(InputEvent::KeyDown(Key::W), true);
    c.handle(InputEvent::KeyDown(Key::P), true);
    assert_eq!(
        c,
        Controls { running: true, debug: true, gravity: false, wind: true, polygon: true }
    );
    c.handle(InputEvent::KeyDown(Key::G), true);
    assert!(c.gravity);
}

#[test]
fn other_input_changes_nothing() {
    let mut c = Controls::new();
    assert_eq!(c.handle(InputEvent::KeyDown(Key::Other), true), None);
    assert_eq!(c.handle(InputEvent::Other, true), None);
    let click = InputEvent::MouseDown { button: Button::Other, x: 1, y: 2 };
    assert_eq!(c.handle(click, true), None);
    assert_eq!(c, Controls::new());
}

#[test]
fn left_click_places_a_ball() {
    let mut c = Controls::new();
    let click = InputEvent::MouseDown { button: Button::Left, x: 30, y: 40 };
    assert_eq!(
        c.handle(click, true),
        Some(Placement { kind: BodyKind::BasketBall, x: 30, y: 40 })
    );
    assert_eq!(
        c.handle(click, false),
        Some(Placement { kind: BodyKind::BowlingBall, x: 30, y: 40 })
    );
}

#[test]
fn right_click_places_a_crate_or_a_polygon() {
    let mut c = Controls::new();
    let click = InputEvent::MouseDown { button: Button::Right, x: -5, y: 7 };
    assert_eq!(c.handle(click, true), Some(Placement { kind: BodyKind::Crate, x: -5, y: 7 }));
    c.handle(InputEvent::KeyDown(Key::P), true);
    assert_eq!(c.handle(click, true), Some(Placement { kind: BodyKind::Polygon, x: -5, y: 7 }));
}

#[test]
fn frame_time_is_sixteen_milliseconds() {
    assert_eq!(MILLISECS_PER_FRAME, 16);
}

#[test]
fn fast_frames_wait_for_the_rest_of_the_frame() {
    assert_eq!(frame_wait_ms(0), 16);
    assert_eq!(frame_wait_ms(10), 6);
    assert_eq!(frame_wait_ms(16), 0);
    assert_eq!(frame_wait_ms(100), 0);
}

#[test]
fn time_step_is_capped_at_one_frame() {
    assert_eq!(step_ms(0), 0);
    assert_eq!(step_ms(9), 9);
    assert_eq!(step_ms(16), 16);
    assert_eq!(step_ms(250), 16);
}
