use slint_backend_kindle::duration::Duration;
use slint_backend_kindle::platform::{
    duration_to_ms, poll_timeout, KindlePlatform, LoopAction, LoopError, LoopEvent, EINTR, POLLERR,
    POLLHUP, POLLIN, POLLNVAL,
};
use slint_backend_kindle::{
    set_render_offset, set_rotation, wake_refresh, DisplayState, KindleBackend, WakeSchedule,
};

fn secs(n: u64) -> Duration {
    Duration::from_secs(n)
}

fn schedule() -> WakeSchedule {
    WakeSchedule { wake_interval: secs(600), stay_awake: secs(30) }
}

fn observed(now: Duration, schedule: Option<WakeSchedule>) -> LoopEvent {
    LoopEvent::Observed { now, schedule, animating: false, queue_empty: true, next_timer: None }
}

fn polled(touch_revents: i16, wakeup_revents: i16) -> LoopEvent {
    LoopEvent::Polled { result: 1, errno: None, touch_revents, wakeup_revents }
}

/// The event loop after the panel was blanked.
fn started(state: &mut DisplayState, wakealarm: bool) -> KindlePlatform {
    let mut p = KindlePlatform::new(state, 100, 200, wakealarm, secs(0));
    assert!(matches!(p.action(), LoopAction::BlankPanel));
    let blanked = LoopEvent::Blanked { now: secs(0) };
    assert!(matches!(p.step(state, blanked), LoopAction::Observe));
    p
}

fn platform(state: &mut DisplayState) -> KindlePlatform {
    started(state, true)
}

/// Runs the loop from an observation to the frame that it draws.
fn one_frame(p: &mut KindlePlatform, state: &mut DisplayState, touch: i16) -> LoopAction {
    assert!(matches!(p.step(state, observed(secs(1), None)), LoopAction::Poll { .. }));
    assert!(matches!(p.step(state, polled(touch, 0)), LoopAction::CheckQuit));
    let checked = LoopEvent::QuitChecked { quit: false, now: secs(2) };
    assert!(matches!(p.step(state, checked), LoopAction::HandleInput));
    let action = p.step(state, LoopEvent::InputHandled { black_and_white: false });
    assert!(matches!(p.step(state, LoopEvent::Drawn), LoopAction::Observe));
    action
}

#[test]
fn the_panel_is_blanked_before_anything_else() {
    let mut state = DisplayState::new();
    let mut p = KindlePlatform::new(&state, 100, 200, true, secs(0));
    let action = p.step(&mut state, observed(secs(40), Some(schedule())));
    assert!(matches!(action, LoopAction::BlankPanel));
    let blanked = LoopEvent::Blanked { now: secs(5) };
    assert!(matches!(p.step(&mut state, blanked), LoopAction::Observe));
    assert!(matches!(p.step(&mut state, blanked), LoopAction::Observe));
    let action = p.step(&mut state, observed(secs(34), Some(schedule())));
    assert!(matches!(action, LoopAction::Poll { timeout_ms: 1_000 }));
}

#[test]
fn durations_become_timeouts() {
    assert_eq!(duration_to_ms(Duration { nanos: 0 }), 1);
    assert_eq!(duration_to_ms(Duration { nanos: 999_999 }), 1);
    assert_eq!(duration_to_ms(Duration { nanos: 2_999_999 }), 2);
    assert_eq!(duration_to_ms(Duration::from_millis(1234)), 1234);
    assert_eq!(duration_to_ms(Duration::from_secs(u64::MAX)), i32::MAX);
    assert_eq!(Duration::from_secs(2).as_millis(), 2000);
    assert_eq!(secs(3).saturating_sub(secs(1)).nanos, 2_000_000_000);
    assert_eq!(secs(1).saturating_sub(secs(3)).nanos, 0);
}

#[test]
fn the_loop_waits_for_the_next_timer_or_frame() {
    let ms = Duration::from_millis;
    assert_eq!(poll_timeout(false, None), -1);
    assert_eq!(poll_timeout(true, None), 33);
    assert_eq!(poll_timeout(false, Some(ms(5000))), 5000);
    assert_eq!(poll_timeout(true, Some(ms(5000))), 33);
    assert_eq!(poll_timeout(true, Some(ms(7))), 7);
    assert_eq!(poll_timeout(false, Some(ms(0))), 1);
}

#[test]
fn the_wait_ends_when_a_suspend_is_due() {
    let ms = Duration::from_millis;
    let mut state = DisplayState::new();
    let p = platform(&mut state);
    let schedule = Some(schedule());
    assert_eq!(p.wait_timeout(secs(0), schedule, false, None), 30_000);
    assert_eq!(p.wait_timeout(ms(29_999), schedule, false, None), 1);
    assert_eq!(p.wait_timeout(Duration { nanos: 29_999_500_000 }, schedule, false, None), 1);
    assert_eq!(p.wait_timeout(secs(10), schedule, false, Some(secs(60))), 20_000);
    assert_eq!(p.wait_timeout(secs(10), schedule, false, Some(secs(5))), 5_000);
    assert_eq!(p.wait_timeout(secs(10), schedule, true, None), 33);
    assert_eq!(p.wait_timeout(ms(29_990), schedule, true, None), 10);
    assert_eq!(p.wait_timeout(secs(30), schedule, true, None), 33);
    assert_eq!(p.wait_timeout(secs(30), schedule, false, None), -1);
    assert_eq!(p.wait_timeout(secs(10), None, false, None), -1);
    let unarmed = started(&mut state, false);
    assert_eq!(unarmed.wait_timeout(secs(10), schedule, false, None), -1);
}

#[test]
fn a_device_that_is_left_alone_is_suspended() {
    let mut state = DisplayState::new();
    let mut p = platform(&mut state);
    let action = p.step(&mut state, observed(secs(10), Some(schedule())));
    assert!(matches!(action, LoopAction::Poll { timeout_ms: 20_000 }));
    let timed_out =
        LoopEvent::Polled { result: 0, errno: None, touch_revents: 0, wakeup_revents: 0 };
    assert!(matches!(p.step(&mut state, timed_out), LoopAction::CheckQuit));
    let checked = LoopEvent::QuitChecked { quit: false, now: secs(30) };
    assert!(matches!(p.step(&mut state, checked), LoopAction::HandleInput));
    p.step(&mut state, LoopEvent::InputHandled { black_and_white: false });
    assert!(matches!(p.step(&mut state, LoopEvent::Drawn), LoopAction::Observe));
    let action = p.step(&mut state, observed(secs(30), Some(schedule())));
    assert!(matches!(action, LoopAction::WaitForUpdate));
}

#[test]
fn a_suspend_that_failed_is_no_wake() {
    let mut state = DisplayState::new();
    let mut p = platform(&mut state);
    p.step(&mut state, observed(secs(30), Some(schedule())));
    p.step(&mut state, LoopEvent::Settled);
    p.step(&mut state, LoopEvent::Armed { ok: true });
    let failed = LoopEvent::Resumed { ok: false, now: secs(31), has_callback: true };
    assert!(matches!(p.step(&mut state, failed), LoopAction::Observe));
    let action = p.step(&mut state, observed(secs(60), Some(schedule())));
    assert!(matches!(action, LoopAction::Poll { timeout_ms: 1_000 }));
}

#[test]
fn nothing_suspends_without_schedule_or_wakealarm() {
    let mut state = DisplayState::new();
    let mut p = platform(&mut state);
    let action = p.step(&mut state, observed(secs(1000), None));
    assert!(matches!(action, LoopAction::Poll { timeout_ms: -1 }));
    let mut p = started(&mut state, false);
    let action = p.step(&mut state, observed(secs(1000), Some(schedule())));
    assert!(matches!(action, LoopAction::Poll { timeout_ms: -1 }));
}

#[test]
fn pending_work_keeps_the_device_awake() {
    let mut state = DisplayState::new();
    for (animating, queue_empty) in [(true, true), (false, false), (true, false)] {
        let mut p = platform(&mut state);
        let event = LoopEvent::Observed {
            now: secs(1000),
            schedule: Some(schedule()),
            animating,
            queue_empty,
            next_timer: None,
        };
        assert!(matches!(p.step(&mut state, event), LoopAction::Poll { .. }));
    }
}

#[test]
fn timers_do_not_keep_the_device_awake() {
    let mut state = DisplayState::new();
    let mut p = platform(&mut state);
    let event = LoopEvent::Observed {
        now: secs(30),
        schedule: Some(schedule()),
        animating: false,
        queue_empty: true,
        next_timer: Some(secs(1)),
    };
    assert!(matches!(p.step(&mut state, event), LoopAction::WaitForUpdate));
}

#[test]
fn a_suspend_runs_its_course_even_if_arming_fails() {
    let mut state = DisplayState::new();
    let mut p = platform(&mut state);
    let action = p.step(&mut state, observed(secs(30), Some(schedule())));
    assert!(matches!(action, LoopAction::WaitForUpdate));
    match p.step(&mut state, LoopEvent::Settled) {
        LoopAction::ArmWakealarm(interval) => assert_eq!(interval.nanos, secs(600).nanos),
        _ => panic!("the wakealarm is armed"),
    }
    let action = p.step(&mut state, LoopEvent::Armed { ok: false });
    assert!(matches!(action, LoopAction::SuspendToRam));
    let resumed = LoopEvent::Resumed { ok: true, now: secs(630), has_callback: true };
    assert!(matches!(p.step(&mut state, resumed), LoopAction::RunOnWake));
    assert!(matches!(p.step(&mut state, LoopEvent::WakeHandled), LoopAction::Observe));
    let action = p.step(&mut state, observed(secs(659), Some(schedule())));
    assert!(matches!(action, LoopAction::Poll { .. }));
}

#[test]
fn a_wake_without_callback_goes_on_at_once() {
    let mut state = DisplayState::new();
    let mut p = platform(&mut state);
    p.step(&mut state, observed(secs(30), Some(schedule())));
    p.step(&mut state, LoopEvent::Settled);
    p.step(&mut state, LoopEvent::Armed { ok: true });
    let resumed = LoopEvent::Resumed { ok: false, now: secs(31), has_callback: false };
    assert!(matches!(p.step(&mut state, resumed), LoopAction::Observe));
    let action = p.step(&mut state, observed(secs(61), Some(schedule())));
    assert!(matches!(action, LoopAction::WaitForUpdate));
}

#[test]
fn a_touch_restarts_the_stay_awake_window() {
    let mut state = DisplayState::new();
    let mut p = platform(&mut state);
    one_frame(&mut p, &mut state, POLLIN);
    let action = p.step(&mut state, observed(secs(31), Some(schedule())));
    assert!(matches!(action, LoopAction::Poll { .. }));
    let mut p = platform(&mut state);
    one_frame(&mut p, &mut state, 0);
    let action = p.step(&mut state, observed(secs(31), Some(schedule())));
    assert!(matches!(action, LoopAction::WaitForUpdate));
}

#[test]
fn an_interrupted_wait_starts_over() {
    let mut state = DisplayState::new();
    let mut p = platform(&mut state);
    p.step(&mut state, observed(secs(0), None));
    let event = LoopEvent::Polled {
        result: -1,
        errno: Some(EINTR),
        touch_revents: 0,
        wakeup_revents: 0,
    };
    assert!(matches!(p.step(&mut state, event), LoopAction::Observe));
}

#[test]
fn a_failed_wait_ends_the_loop_for_good() {
    let mut state = DisplayState::new();
    let mut p = platform(&mut state);
    p.step(&mut state, observed(secs(0), None));
    let event =
        LoopEvent::Polled { result: -1, errno: Some(9), touch_revents: 0, wakeup_revents: 0 };
    match p.step(&mut state, event) {
        LoopAction::Fail(LoopError::PollFailed { errno }) => assert_eq!(errno, Some(9)),
        _ => panic!("the loop fails"),
    }
    assert!(matches!(p.step(&mut state, observed(secs(9), None)), LoopAction::Fail(_)));
}

#[test]
fn a_dead_input_ends_the_loop() {
    for bit in [POLLERR, POLLHUP, POLLNVAL] {
        for (touch, wakeup) in [(bit, POLLIN), (POLLIN, bit), (bit | POLLIN, 0)] {
            let mut state = DisplayState::new();
            let mut p = platform(&mut state);
            p.step(&mut state, observed(secs(0), None));
            match p.step(&mut state, polled(touch, wakeup)) {
                LoopAction::Fail(LoopError::InputDied { touch_revents, wakeup_revents }) => {
                    assert_eq!((touch_revents, wakeup_revents), (touch, wakeup));
                }
                _ => panic!("the loop fails"),
            }
        }
    }
}

#[test]
fn wakeups_are_drained_before_quitting() {
    let mut state = DisplayState::new();
    let mut p = platform(&mut state);
    p.step(&mut state, observed(secs(0), None));
    assert!(matches!(p.step(&mut state, polled(0, POLLIN)), LoopAction::DrainWakeups));
    assert!(matches!(p.step(&mut state, LoopEvent::Drained), LoopAction::RunClosures));
    assert!(matches!(p.step(&mut state, LoopEvent::ClosuresRun), LoopAction::CheckQuit));
    let quit = LoopEvent::QuitChecked { quit: true, now: secs(0) };
    assert!(matches!(p.step(&mut state, quit), LoopAction::Stop));
    assert!(matches!(p.step(&mut state, observed(secs(9), None)), LoopAction::Stop));
}

#[test]
fn an_event_nobody_waits_for_changes_nothing() {
    let mut state = DisplayState::new();
    let mut p = platform(&mut state);
    assert!(matches!(p.action(), LoopAction::Observe));
    assert!(matches!(p.step(&mut state, LoopEvent::Drawn), LoopAction::Observe));
    p.step(&mut state, observed(secs(0), None));
    let action = p.step(&mut state, observed(secs(99), Some(schedule())));
    assert!(matches!(action, LoopAction::Poll { timeout_ms: -1 }));
}

#[test]
fn rotating_at_run_time_redraws_everything() {
    let mut state = DisplayState::new();
    let mut p = platform(&mut state);
    match one_frame(&mut p, &mut state, 0) {
        LoopAction::Draw(f) => assert!(!f.full && !f.redraw && !f.resize),
        _ => panic!("a frame is drawn"),
    }
    set_rotation(&mut state, 180);
    match one_frame(&mut p, &mut state, 0) {
        LoopAction::Draw(f) => {
            assert!(f.full && f.redraw && !f.resize);
            assert_eq!((f.rotation, f.render_w, f.render_h), (180, 100, 200));
        }
        _ => panic!("a frame is drawn"),
    }
    set_rotation(&mut state, 90);
    match one_frame(&mut p, &mut state, 0) {
        LoopAction::Draw(f) => {
            assert!(f.full && f.redraw && f.resize);
            assert_eq!((f.rotation, f.render_w, f.render_h), (90, 200, 100));
        }
        _ => panic!("a frame is drawn"),
    }
    set_rotation(&mut state, 90);
    match one_frame(&mut p, &mut state, 0) {
        LoopAction::Draw(f) => assert!(f.full && !f.redraw && !f.resize),
        _ => panic!("a frame is drawn"),
    }
    match one_frame(&mut p, &mut state, 0) {
        LoopAction::Draw(f) => assert!(!f.full && !f.redraw && !f.resize),
        _ => panic!("a frame is drawn"),
    }
}

#[test]
fn the_launch_offset_turns_every_frame() {
    let mut state = DisplayState::new();
    set_rotation(&mut state, 270);
    set_render_offset(&mut state, 180);
    let mut p = platform(&mut state);
    assert_eq!((p.render_w, p.render_h, p.last_rendered_rotation), (200, 100, 90));
    match one_frame(&mut p, &mut state, 0) {
        LoopAction::Draw(f) => assert_eq!((f.rotation, f.redraw), (90, false)),
        _ => panic!("a frame is drawn"),
    }
}

#[test]
fn a_wake_refresh_replaces_the_sleep_image_once() {
    let mut state = DisplayState::new();
    let mut p = platform(&mut state);
    wake_refresh(&mut state);
    match one_frame(&mut p, &mut state, 0) {
        LoopAction::Draw(f) => assert!(f.full && f.redraw),
        _ => panic!("a frame is drawn"),
    }
    match one_frame(&mut p, &mut state, 0) {
        LoopAction::Draw(f) => assert!(!f.full && !f.redraw),
        _ => panic!("a frame is drawn"),
    }
}

#[test]
fn the_wake_callback_comes_and_goes_with_the_schedule() {
    let mut backend: KindleBackend<&str> = KindleBackend::new();
    assert!(backend.wake_schedule().is_none());
    assert!(backend.wake_callback().is_none());
    assert!(!backend.black_and_white());
    backend.set_black_and_white(true);
    let mut scheduled = backend.set_wake_schedule(schedule());
    assert!(scheduled.wake_callback().is_none());
    scheduled.on_wake("first");
    scheduled.on_wake("second");
    assert_eq!(scheduled.wake_callback(), Some(&"second"));
    scheduled.set_wake_schedule(WakeSchedule { wake_interval: secs(1), stay_awake: secs(2) });
    assert_eq!(scheduled.wake_schedule().unwrap().stay_awake.nanos, secs(2).nanos);
    assert_eq!(scheduled.wake_callback(), Some(&"second"));
    let cleared = scheduled.clear_wake_schedule();
    assert!(cleared.wake_schedule().is_none());
    assert!(cleared.wake_callback().is_none());
    assert!(cleared.black_and_white());
    assert!(cleared.set_wake_schedule(schedule()).wake_callback().is_none());
}
