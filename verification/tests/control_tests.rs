use plotctl::andselect;
use plotctl::fmt::format_command;
use plotctl::sample;
use plotctl::sample::{PollOutcome, StreamEvent};
use plotctl::smoother::Smoother;
use plotctl::trajectory::{clamp, scale_target, Controller, MAX_A, MAX_J, MAX_V, MAX_Y};

#[test]
fn clamp_respects_bounds() {
    assert_eq!(clamp(5, -3, 3), 3);
    assert_eq!(clamp(-5, -3, 3), -3);
    assert_eq!(clamp(2, -3, 3), 2);
    assert_eq!(clamp(-3, -3, 3), -3);
    assert_eq!(clamp(0, 0, 0), 0);
}

#[test]
fn moving_average_of_constant_converges() {
    let mut s = Smoother::new();
    let v = 612u32;
    for k in 1..=9u32 {
        let avg = s.push(v);
        assert_eq!(avg, k * v / 10);
        assert!(avg < v, "early output {} not below {}", avg, v);
    }
    for _ in 0..10 {
        assert_eq!(s.push(v), v);
    }
}

#[test]
fn moving_average_includes_zero_padding() {
    let mut s = Smoother::new();
    assert_eq!(s.push(10), 1);
    assert_eq!(s.push(10), 2);
}

#[test]
fn scale_target_centers_and_scales() {
    assert_eq!(scale_target(612), 97);
    assert_eq!(scale_target(512), 0);
    assert_eq!(scale_target(0), -500);
    assert_eq!(scale_target(1024), 500);
    assert_eq!(scale_target(65535), 63499);
    // Truncation toward zero on the negative side.
    assert_eq!(scale_target(511), 0);
}

#[test]
fn sampler_emits_latest_value_on_trigger() {
    let mut s = sample::new::<i32>();

    // A trigger before any value withholds output.
    match s.poll::<()>(StreamEvent::NotReady, StreamEvent::Ready(())) {
        PollOutcome::Pending => {}
        _ => panic!("expected pending before any value"),
    }

    // All of the values arrive before any further trigger.
    for v in [1, 2, 3] {
        match s.poll::<()>(StreamEvent::Ready(v), StreamEvent::NotReady) {
            PollOutcome::Pending => {}
            _ => panic!("expected pending without a trigger"),
        }
    }

    // Every trigger after that re-emits the newest value.
    for _ in 0..4 {
        match s.poll::<()>(StreamEvent::NotReady, StreamEvent::Ready(())) {
            PollOutcome::Item(v) => assert_eq!(v, 3),
            _ => panic!("expected the cached value"),
        }
    }
}

#[test]
fn sampler_ends_with_trigger_stream() {
    let mut s = sample::new::<i32>();
    match s.poll::<()>(StreamEvent::Ready(7), StreamEvent::Done) {
        PollOutcome::End => {}
        _ => panic!("expected end when the trigger stream closes"),
    }
}

#[test]
fn sampler_propagates_value_stream_failure() {
    let mut s = sample::new::<i32>();
    match s.poll::<i32>(StreamEvent::Failed(42), StreamEvent::NotReady) {
        PollOutcome::Error(e) => assert_eq!(e, 42),
        _ => panic!("expected the value stream's failure"),
    }
}

#[test]
fn controller_clamps_hold_for_any_targets() {
    let mut c = Controller::new();
    let targets = [
        100000, -100000, 0, 612, -612, i32::MAX, i32::MIN, 97, 97, 97, 5, -5, 1000, -1000, 42,
        i32::MAX, i32::MIN, i32::MAX,
    ];
    let mut prev_ya = c.ya;
    for t in targets {
        let v = c.step(t);
        assert!(c.y.abs() <= MAX_Y);
        assert!(c.yv.abs() <= MAX_V);
        assert!(c.ya.abs() <= MAX_A);
        assert!((c.ya - prev_ya).abs() <= MAX_J);
        assert_eq!(v, c.yv);
        prev_ya = c.ya;
    }
}

#[test]
fn controller_settles_on_constant_target() {
    let mut c = Controller::new();
    let mut last = 0;
    for _ in 0..40 {
        last = c.step(97);
    }
    assert_eq!(last, 0);
    assert_eq!(c.step(97), 0);
}

#[test]
fn controller_first_steps_ramp_with_jerk_limit() {
    let mut c = Controller::new();
    assert_eq!(c.step(97), 5);
    assert_eq!(c.step(97), 10);
    assert_eq!(c.step(97), 15);
}

#[test]
fn select_forwards_until_shutdown() {
    let mut s = andselect::new();
    match s.poll::<&str, ()>(StreamEvent::Ready("XM,4,4,5"), StreamEvent::NotReady) {
        PollOutcome::Item(x) => assert_eq!(x, "XM,4,4,5"),
        _ => panic!("expected the primary item"),
    }
    match s.poll::<&str, ()>(StreamEvent::NotReady, StreamEvent::NotReady) {
        PollOutcome::Pending => {}
        _ => panic!("expected pending"),
    }
}

#[test]
fn select_shutdown_wins_when_both_ready() {
    let mut s = andselect::new();
    match s.poll::<&str, ()>(StreamEvent::Ready("XM,4,4,5"), StreamEvent::Ready("SP,0")) {
        PollOutcome::Item(x) => assert_eq!(x, "SP,0"),
        _ => panic!("expected the shutdown item"),
    }
    // Afterwards the combined stream has ended for good.
    match s.poll::<&str, ()>(StreamEvent::Ready("XM,4,4,6"), StreamEvent::NotReady) {
        PollOutcome::End => {}
        _ => panic!("expected the end"),
    }
}

#[test]
fn format_command_renders_velocity() {
    assert_eq!(format_command(0), b"XM,4,4,0".to_vec());
    assert_eq!(format_command(5), b"XM,4,4,5".to_vec());
    assert_eq!(format_command(-17), b"XM,4,4,-17".to_vec());
    assert_eq!(format_command(80), b"XM,4,4,80".to_vec());
    assert_eq!(format_command(i32::MIN), format!("XM,4,4,{}", i32::MIN).into_bytes());
}
