use mirror_room::animation::BASE_PERIOD_MS;
use mirror_room::character::Character;
use mirror_room::character::RUN_STRENGTH;
use mirror_room::character::WALK_STRENGTH;
use mirror_room::facing::Facing;
use mirror_room::input::InputSnapshot;
use mirror_room::input::KeyEdges;
use mirror_room::motion::kinematic_step;
use mirror_room::motion::impulse_for;
use mirror_room::motion::LocomotionMode;
use mirror_room::motion::Position;

const OFF: KeyEdges = KeyEdges { just_pressed: false, just_released: false, held: false };
const PRESSED: KeyEdges = KeyEdges { just_pressed: true, just_released: false, held: true };
const HELD: KeyEdges = KeyEdges { just_pressed: false, just_released: false, held: true };
const RELEASED: KeyEdges = KeyEdges { just_pressed: false, just_released: true, held: false };

fn quiet() -> InputSnapshot {
    InputSnapshot { up: OFF, left: OFF, down: OFF, right: OFF, run: OFF }
}

#[test]
fn spawn_state_is_idle_facing_down() {
    let c = Character::new();
    assert_eq!(c.facing, Facing::Down);
    assert_eq!(c.mode, LocomotionMode::Idle);
    assert_eq!(c.walk_strength, WALK_STRENGTH);
    assert_eq!(c.run_strength, RUN_STRENGTH);
    assert_eq!(c.anim.range.start, 74);
    assert_eq!(c.anim.range.length, 6);
    assert_eq!(c.anim.frame, 74);
    assert_eq!(c.anim.clock.period_ms, BASE_PERIOD_MS);
    assert_eq!(c.anim.clock.elapsed_ms, 0);
}

#[test]
fn walking_right_selects_window_and_impulse() {
    let mut c = Character::new();
    let mut s = quiet();
    s.right = PRESSED;
    let imp = c.step_frame(&s, 50);
    assert_eq!(c.facing, Facing::Right);
    assert_eq!(c.mode, LocomotionMode::Walking);
    assert_eq!(c.anim.range.start, 112);
    assert_eq!(c.anim.frame, 112);
    assert_eq!(c.anim.clock.period_ms, 200);
    assert_eq!(c.anim.clock.elapsed_ms, 50);
    assert_eq!(imp.x, WALK_STRENGTH as i64);
    assert_eq!(imp.y, 0);
}

#[test]
fn walk_cycle_advances_on_the_fourth_frame() {
    let mut c = Character::new();
    let mut press = quiet();
    press.right = PRESSED;
    c.step_frame(&press, 50);
    let mut held = quiet();
    held.right = HELD;
    c.step_frame(&held, 50);
    c.step_frame(&held, 50);
    assert_eq!(c.anim.frame, 112);
    c.step_frame(&held, 50);
    assert_eq!(c.anim.frame, 113);
    assert_eq!(c.anim.clock.elapsed_ms, 0);
}

#[test]
fn running_up_uses_short_period_and_run_strength() {
    let mut c = Character::new();
    let mut s = quiet();
    s.up = PRESSED;
    s.run = HELD;
    let imp = c.step_frame(&s, 0);
    assert_eq!(c.facing, Facing::Up);
    assert_eq!(c.mode, LocomotionMode::Running);
    assert_eq!(c.anim.range.start, 118);
    assert_eq!(c.anim.clock.period_ms, 100);
    assert_eq!(imp.x, 0);
    assert_eq!(imp.y, RUN_STRENGTH as i64);
}

#[test]
fn releasing_the_facing_direction_stops_and_idles_the_animation() {
    let mut c = Character::new();
    let mut press = quiet();
    press.right = PRESSED;
    c.step_frame(&press, 50);
    let mut release = quiet();
    release.right = RELEASED;
    let imp = c.step_frame(&release, 50);
    assert_eq!(c.facing, Facing::Right);
    assert_eq!(c.mode, LocomotionMode::Idle);
    assert_eq!(c.anim.range.start, 56);
    assert_eq!(c.anim.frame, 56);
    assert_eq!(imp.x, 0);
    assert_eq!(imp.y, 0);
}

#[test]
fn idle_entity_produces_zero_impulse() {
    let imp = impulse_for(LocomotionMode::Idle, Facing::Left, 24, 48);
    assert_eq!(imp.x, 0);
    assert_eq!(imp.y, 0);
}

#[test]
fn impulse_points_along_the_facing() {
    let down = impulse_for(LocomotionMode::Walking, Facing::Down, 24, 48);
    assert_eq!((down.x, down.y), (0, -24));
    let left = impulse_for(LocomotionMode::Running, Facing::Left, 24, 48);
    assert_eq!((left.x, left.y), (-48, 0));
    let right = impulse_for(LocomotionMode::Walking, Facing::Right, 24, 48);
    assert_eq!((right.x, right.y), (24, 0));
    let up = impulse_for(LocomotionMode::Running, Facing::Up, 24, 48);
    assert_eq!((up.x, up.y), (0, 48));
}

#[test]
fn kinematic_step_displaces_along_the_facing() {
    let start = Position { x: 10, y: -20 };
    let p = kinematic_step(start, LocomotionMode::Walking, Facing::Right, 24, 48, 100);
    assert_eq!(p.x, 10 + 24 * 100);
    assert_eq!(p.y, -20);
    let q = kinematic_step(start, LocomotionMode::Running, Facing::Down, 24, 48, 10);
    assert_eq!(q.x, 10);
    assert_eq!(q.y, -20 - 48 * 10);
    let idle = kinematic_step(start, LocomotionMode::Idle, Facing::Up, 24, 48, 1000);
    assert_eq!(idle, start);
}

#[test]
fn turning_preserves_frame_phase_within_the_moving_windows() {
    // walk right to frame 113, then turn up: 113 does not lie in [118,124),
    // so the frame wraps to 118 while the clock keeps counting
    let mut c = Character::new();
    let mut press_right = quiet();
    press_right.right = PRESSED;
    c.step_frame(&press_right, 200);
    assert_eq!(c.anim.frame, 113);
    let mut press_up = quiet();
    press_up.up = PRESSED;
    press_up.right = HELD;
    c.step_frame(&press_up, 50);
    assert_eq!(c.facing, Facing::Up);
    assert_eq!(c.anim.range.start, 118);
    assert_eq!(c.anim.frame, 118);
    assert_eq!(c.anim.clock.elapsed_ms, 50);
}
