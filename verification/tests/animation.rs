use mirror_room::animation::animate_all;
use mirror_room::animation::Animation;
use mirror_room::animation::AnimationClock;
use mirror_room::animation::FrameRange;
use mirror_room::animation::character_range;
use mirror_room::animation::period_ms_for;
use mirror_room::animation::BASE_PERIOD_MS;
use mirror_room::animation::RUN_PERIOD_MS;
use mirror_room::facing::Facing;
use mirror_room::motion::LocomotionMode;

#[test]
fn lookup_table_has_documented_entries() {
    let cases = [
        (Facing::Down, true, 130),
        (Facing::Down, false, 74),
        (Facing::Left, true, 124),
        (Facing::Left, false, 68),
        (Facing::Right, true, 112),
        (Facing::Right, false, 56),
        (Facing::Up, true, 118),
        (Facing::Up, false, 62),
    ];
    for (facing, moving, start) in cases {
        let r = character_range(facing, moving);
        assert_eq!(r.start, start);
        assert_eq!(r.length, 6);
    }
}

#[test]
fn period_depends_on_mode() {
    assert_eq!(period_ms_for(LocomotionMode::Idle), BASE_PERIOD_MS);
    assert_eq!(period_ms_for(LocomotionMode::Walking), BASE_PERIOD_MS);
    assert_eq!(period_ms_for(LocomotionMode::Running), RUN_PERIOD_MS);
    assert_eq!(BASE_PERIOD_MS, 200);
    assert_eq!(RUN_PERIOD_MS, 100);
}

#[test]
fn degenerate_range_rejected_at_construction() {
    assert!(FrameRange::new(74, 0).is_none());
    assert!(FrameRange::new(usize::MAX, 1).is_none());
    assert!(FrameRange::new(usize::MAX - 5, 6).is_none());
    assert!(FrameRange::new(usize::MAX - 6, 6).is_some());
    let r = FrameRange::new(74, 6).unwrap();
    assert_eq!(r.start, 74);
    assert_eq!(r.length, 6);
}

#[test]
fn range_change_preserves_frame_inside_new_window() {
    let mut a = Animation::new(FrameRange { start: 130, length: 6 }, 200);
    a.frame = 133;
    a.set_range(FrameRange { start: 130, length: 6 });
    assert_eq!(a.frame, 133);
    a.set_range(FrameRange { start: 131, length: 6 });
    assert_eq!(a.frame, 133);
}

#[test]
fn range_change_wraps_frame_to_new_start_when_outside() {
    // old window [74, 80) at frame 77, new window [130, 136): 77 does not
    // lie in the new window, so the frame becomes 130 and nothing else
    let mut a = Animation::new(FrameRange { start: 74, length: 6 }, 200);
    a.frame = 77;
    a.set_range(FrameRange { start: 130, length: 6 });
    assert_eq!(a.frame, 130);
}

#[test]
fn clock_advances_exactly_once_after_four_quarter_pushes() {
    // period 0.2 s and four pushes of 0.05 s: exactly one advance on the
    // fourth push, with the elapsed time reset to zero
    let mut c = AnimationClock::new(200);
    assert!(!c.tick(50));
    assert!(!c.tick(50));
    assert!(!c.tick(50));
    assert_eq!(c.elapsed_ms, 150);
    assert!(c.tick(50));
    assert_eq!(c.elapsed_ms, 0);
}

#[test]
fn clock_does_not_catch_up_after_a_stutter() {
    // a tick far beyond one period still yields a single overflow event
    let mut a = Animation::new(FrameRange { start: 74, length: 6 }, 200);
    let advanced = a.tick(1000);
    assert!(advanced);
    assert_eq!(a.frame, 75);
    assert_eq!(a.clock.elapsed_ms, 0);
}

#[test]
fn frame_wraps_at_window_end() {
    let mut a = Animation::new(FrameRange { start: 74, length: 6 }, 200);
    a.frame = 79;
    assert!(a.tick(200));
    assert_eq!(a.frame, 74);
}

#[test]
fn period_change_keeps_elapsed_time() {
    let mut a = Animation::new(FrameRange { start: 74, length: 6 }, 200);
    assert!(!a.tick(80));
    a.set_period(100);
    assert_eq!(a.clock.elapsed_ms, 80);
    assert_eq!(a.clock.period_ms, 100);
    // only when the elapsed time no longer fits under a shorter period does
    // the cycle restart
    let mut b = Animation::new(FrameRange { start: 74, length: 6 }, 200);
    assert!(!b.tick(150));
    b.set_period(100);
    assert_eq!(b.clock.elapsed_ms, 0);
}

#[test]
fn system_pass_advances_every_sprite() {
    let mut sprites = vec![
        Animation::new(FrameRange { start: 74, length: 6 }, 200),
        Animation::new(FrameRange { start: 0, length: 12 }, 100),
    ];
    animate_all(&mut sprites, 100);
    assert_eq!(sprites[0].frame, 74);
    assert_eq!(sprites[0].clock.elapsed_ms, 100);
    assert_eq!(sprites[1].frame, 1);
    assert_eq!(sprites[1].clock.elapsed_ms, 0);
}

#[test]
fn next_frame_steps_and_wraps() {
    let r = FrameRange { start: 56, length: 6 };
    assert_eq!(r.next_frame(56), 57);
    assert_eq!(r.next_frame(60), 61);
    assert_eq!(r.next_frame(61), 56);
}
