use ddconrod::bridge::{is_close_signal, plan_events, EventPlan, Key, RawEvent};
use ddconrod::dsp::{process_channel, process_sample};
use ddconrod::render::{pacing_delay, LoopState, RenderLoop};

#[test]
fn sample_shaping_values() {
    assert_eq!(process_sample(300_000, 500_000, 800_000), 480_000);
    assert_eq!(process_sample(-700_000, 500_000, 800_000), -800_000);
    assert_eq!(process_sample(0, 500_000, 800_000), 0);
    assert_eq!(process_sample(500_000, 500_000, 800_000), 800_000);
    assert_eq!(process_sample(-500_000, 500_000, 800_000), -800_000);
    assert_eq!(process_sample(-1, 3, 2), 0);
    assert_eq!(process_sample(i32::MIN, u32::MAX, u32::MAX), i32::MIN as i64);
    assert_eq!(process_sample(i32::MAX, 1, u32::MAX), u32::MAX as i64);
}

#[test]
fn sample_sign_and_saturation() {
    let t = 400_000u32;
    let g = 700_000u32;
    for x in [-3_000_000, -400_000, -399_999, -1, 0, 1, 123_456, 400_000, 2_000_000] {
        let y = process_sample(x, t, g);
        assert!(x.signum() as i64 == y.signum() || y == 0);
        if x.unsigned_abs() <= t {
            assert!(y.abs() <= g as i64);
        }
        if x.unsigned_abs() >= t {
            assert_eq!(y.abs(), g as i64);
        }
    }
}

#[test]
fn channel_pairs_only_matching_samples() {
    let input = vec![2_000_000, -2_000_000];
    let mut output = vec![5, 5, 5];
    process_channel(&input, &mut output, 1_000_000, 1_000_000);
    assert_eq!(output, vec![1_000_000, -1_000_000, 5]);
    let mut short = vec![0];
    process_channel(&input, &mut short, 1_000_000, 500_000);
    assert_eq!(short, vec![500_000]);
}

#[test]
fn close_signals() {
    assert!(is_close_signal(&RawEvent::Closed));
    assert!(is_close_signal(&RawEvent::KeyboardInput { pressed: true, key: Some(Key::Escape) }));
    assert!(is_close_signal(&RawEvent::KeyboardInput { pressed: false, key: Some(Key::Escape) }));
    assert!(!is_close_signal(&RawEvent::KeyboardInput { pressed: true, key: Some(Key::Other) }));
    assert!(!is_close_signal(&RawEvent::KeyboardInput { pressed: true, key: None }));
    assert!(!is_close_signal(&RawEvent::Other));
}

#[test]
fn events_stop_at_first_close() {
    let evs = vec![RawEvent::Other, RawEvent::Closed, RawEvent::Other, RawEvent::Closed];
    assert_eq!(plan_events(&evs), EventPlan { deliver: 1, close: true });
    let quiet = vec![RawEvent::Other, RawEvent::KeyboardInput { pressed: true, key: None }];
    assert_eq!(plan_events(&quiet), EventPlan { deliver: 2, close: false });
    assert_eq!(plan_events(&vec![]), EventPlan { deliver: 0, close: false });
}

#[test]
fn pacing_waits_out_the_frame() {
    assert_eq!(pacing_delay(0), 16_000);
    assert_eq!(pacing_delay(10_000), 6_000);
    assert_eq!(pacing_delay(16_000), 0);
    assert_eq!(pacing_delay(50_000), 0);
}

#[test]
fn cancellation_closes_loop_without_waiting() {
    let mut l = RenderLoop::new();
    assert_eq!(l.begin_frame(false, 4_000), Some(12_000));
    assert_eq!(l.state, LoopState::Running);
    assert_eq!(l.begin_frame(true, 0), None);
    assert_eq!(l.state, LoopState::Closing);
    assert!(!l.should_draw());
    assert_eq!(l.begin_frame(false, 0), None);
    assert!(l.released());
    assert!(l.is_closed());
    assert!(l.released());
    assert_eq!(l.state, LoopState::Closed);
}

#[test]
fn escape_closes_loop_after_earlier_events() {
    let mut l = RenderLoop::new();
    let evs = vec![
        RawEvent::Other,
        RawEvent::KeyboardInput { pressed: true, key: Some(Key::Escape) },
        RawEvent::Other,
    ];
    assert_eq!(l.take_events(&evs), 1);
    assert_eq!(l.state, LoopState::Closing);
    assert_eq!(l.take_events(&evs), 0);
}

#[test]
fn frames_count_and_present_failure_closes() {
    let mut l = RenderLoop::new();
    assert!(!l.released());
    assert_eq!(l.take_events(&vec![RawEvent::Other]), 1);
    assert!(l.should_draw());
    l.frame_presented(true);
    l.frame_presented(true);
    assert_eq!(l.frames, 2);
    l.frame_presented(false);
    assert_eq!(l.state, LoopState::Closing);
    assert_eq!(l.frames, 2);
    assert!(l.released());
}
