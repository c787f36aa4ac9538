use mouse_look::angle::HALF_PI_MICRORAD;
use mouse_look::event::{Button, InputEvent};
use mouse_look::player::{Player, PLAYER_TYPE_ID};
use mouse_look::rotation::{Axis, AxisAngle, Rotation};

#[test]
fn new_starts_level() {
    let p = Player::new();
    let r = p.current_rotation();
    assert_eq!(r.inner, AxisAngle { axis: Axis::X, angle: 0 });
    assert_eq!(r.outer, AxisAngle { axis: Axis::Y, angle: 0 });
}

#[test]
fn two_deltas_accumulate_exactly() {
    // 0.1 rad, 0.1 rad; then -0.05 rad, 0.2 rad: yaw 0.05 rad, pitch 0.3 rad.
    let mut p = Player::new();
    p.apply_delta(100_000, 100_000);
    p.apply_delta(-50_000, 200_000);
    let r = p.current_rotation();
    assert_eq!(r.outer, AxisAngle { axis: Axis::Y, angle: 50_000 });
    assert_eq!(r.inner, AxisAngle { axis: Axis::X, angle: 300_000 });
}

#[test]
fn pitch_clamps_to_exactly_a_quarter_turn() {
    // From just under the top, a whole radian up lands exactly on the bound.
    let mut p = Player::from_angles(0, HALF_PI_MICRORAD - 10_000);
    p.apply_delta(0, 1_000_000);
    assert_eq!(p.current_rotation().inner.angle, HALF_PI_MICRORAD);
}

#[test]
fn pitch_clamps_at_the_lower_bound_too() {
    let mut p = Player::from_angles(0, -HALF_PI_MICRORAD + 10_000);
    p.apply_delta(0, -1_000_000);
    assert_eq!(p.current_rotation().inner.angle, -HALF_PI_MICRORAD);
}

#[test]
fn pitch_stays_in_range_after_every_call() {
    let mut p = Player::new();
    let deltas = [
        (7, i64::MAX),
        (-3, -50_000),
        (0, i64::MIN),
        (12, 3_000_000),
        (5, -1),
    ];
    for (dx, dy) in deltas {
        p.apply_delta(dx, dy);
        let pitch = p.current_rotation().inner.angle;
        assert!(-HALF_PI_MICRORAD <= pitch && pitch <= HALF_PI_MICRORAD);
    }
}

#[test]
fn yaw_is_never_clamped() {
    let mut p = Player::new();
    p.apply_delta(40_000_000, 0);
    p.apply_delta(40_000_000, 0);
    assert_eq!(p.current_rotation().outer.angle, 80_000_000);
    p.apply_delta(-200_000_000, 0);
    assert_eq!(p.current_rotation().outer.angle, -120_000_000);
}

#[test]
fn querying_twice_gives_identical_rotations() {
    let mut p = Player::from_angles(123_456, 65_432);
    p.apply_delta(-9_876, 5_432);
    let first = p.current_rotation();
    let second = p.current_rotation();
    assert_eq!(first, second);
}

#[test]
fn independent_deltas_commute() {
    // Ten degrees is 174_533 microradians.
    let mut a = Player::new();
    a.apply_delta(174_533, 0);
    a.apply_delta(0, 174_533);
    let mut b = Player::new();
    b.apply_delta(0, 174_533);
    b.apply_delta(174_533, 0);
    assert_eq!(a.current_rotation(), b.current_rotation());
}

#[test]
fn composition_order_is_pitch_first_yaw_last() {
    let mut p = Player::new();
    p.apply_delta(174_533, 174_533);
    let r = p.current_rotation();
    assert_eq!(r.inner.axis, Axis::X);
    assert_eq!(r.outer.axis, Axis::Y);
    let swapped = Rotation { inner: r.outer, outer: r.inner };
    assert_ne!(r, swapped);
}

#[test]
fn initial_orientation_is_clamped() {
    let p = Player::from_angles(5, 3 * HALF_PI_MICRORAD);
    assert_eq!(p.current_rotation().inner.angle, HALF_PI_MICRORAD);
    assert_eq!(p.current_rotation().outer.angle, 5);
}

#[test]
fn button_events_do_not_move_the_view() {
    let mut p = Player::from_angles(42, -7);
    let before = p.current_rotation();
    p.on_os_event(&InputEvent::ButtonChange { button: Button::Secondary, pressed: true });
    p.on_os_event(&InputEvent::ButtonChange { button: Button::Primary, pressed: false });
    assert_eq!(p.current_rotation(), before);
}

#[test]
fn motion_events_reach_the_accumulator() {
    let mut p = Player::new();
    p.on_os_event(&InputEvent::MotionDelta { dx: 1_000, dy: -2_000 });
    let r = p.current_rotation();
    assert_eq!(r.outer.angle, 1_000);
    assert_eq!(r.inner.angle, -2_000);
}

#[test]
fn player_reports_its_type_id() {
    let p = Player::new();
    assert_eq!(p.id(), PLAYER_TYPE_ID);
}
