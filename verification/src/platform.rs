//! The event loop: what it does next.

use vstd::prelude::*;

use crate::backend::WakeSchedule;
use crate::duration::Duration;
use crate::frame::{render_size, Frame};
use crate::state::{get_rotation, DisplayState, DisplayView};

verus! {

/// Animations get redrawn at most ~30 fps. E-ink can't keep up with anything faster, so quicker
/// wakes would just waste battery.
pub const ANIMATION_FRAME_MILLIS: u64 = 33;

/// Error number of a system call that a signal has interrupted.
pub const EINTR: i32 = 4;

/// `poll(2)`: there is data to read.
pub const POLLIN: i16 = 0x1;

/// `poll(2)`: error condition.
pub const POLLERR: i16 = 0x8;

/// `poll(2)`: hung up.
pub const POLLHUP: i16 = 0x10;

/// `poll(2)`: the file descriptor is not open.
pub const POLLNVAL: i16 = 0x20;

/// Why the event loop ends early.
#[derive(Clone, Copy)]
pub enum LoopError {
    /// Waiting for input failed with this error number.
    PollFailed { errno: Option<i32> },
    /// One of the input file descriptors has died; `poll(2)` reported these events.
    InputDied { touch_revents: i16, wakeup_revents: i16 },
}

/// What the event loop is waiting for.
#[derive(Clone, Copy)]
pub enum Phase {
    /// For the panel to be cleared, before anything is drawn.
    Starting,
    /// To be told how things stand.
    Observing,
    /// For the panel to finish its update before the device is suspended.
    Settling { wake_interval: Duration },
    /// For the wakealarm to be armed.
    Arming { wake_interval: Duration },
    /// For the device to wake.
    Suspending,
    /// For the application's wake callback.
    Waking,
    /// For input, a wakeup from an application thread, or the timeout.
    Polling { timeout_ms: i32 },
    /// For the wakeup pipe to be emptied.
    Draining { touched: bool },
    /// For the queued closures to be run.
    RunningClosures { touched: bool },
    /// To be told whether the application wants to quit.
    Quitting { touched: bool },
    /// For touch input, timers and animations to be brought up to date.
    Handling,
    /// For the frame to be drawn.
    Drawing { frame: Frame },
    /// Nothing: the application has quit.
    Stopped,
    /// Nothing: the event loop has failed.
    Failed { error: LoopError },
}

/// What the event loop has to do next.
#[derive(Clone, Copy)]
pub enum LoopAction {
    /// Make the panel blank and refresh all of it.
    BlankPanel,
    /// Look how things stand.
    Observe,
    /// Wait until the panel has finished its update.
    WaitForUpdate,
    /// Arm the wakealarm to go off after this time.
    ArmWakealarm(Duration),
    SuspendToRam,
    /// Run the application's wake callback.
    RunOnWake,
    /// Wait for input; -1 means "wait forever", which lets the CPU go to sleep.
    Poll { timeout_ms: i32 },
    /// Empty the wakeup pipe. That comes before the queued closures are run, so that a wakeup
    /// that arrives while a closure runs still leads to another turn of the loop.
    DrainWakeups,
    /// Take the queued closures off the queue and run them.
    RunClosures,
    CheckQuit,
    /// Hand touch input to the window, then update timers and animations.
    HandleInput,
    Draw(Frame),
    Stop,
    Fail(LoopError),
}

/// How things went.
#[derive(Clone, Copy)]
pub enum LoopEvent {
    /// The panel is blank at time `now` since the start.
    Blanked { now: Duration },
    /// How things stand at time `now` since the start: the wake schedule, whether the window has
    /// active animations, whether no closures are queued, and when the next timer is due.
    Observed {
        now: Duration,
        schedule: Option<WakeSchedule>,
        animating: bool,
        queue_empty: bool,
        next_timer: Option<Duration>,
    },
    Settled,
    /// Arming the wakealarm was tried.
    Armed { ok: bool },
    /// The device woke (`ok`), or could not be suspended, at time `now` since the start.
    Resumed { ok: bool, now: Duration, has_callback: bool },
    WakeHandled,
    /// `poll(2)` returned `result`, with `errno` if that is negative.
    Polled { result: i32, errno: Option<i32>, touch_revents: i16, wakeup_revents: i16 },
    Drained,
    ClosuresRun,
    QuitChecked { quit: bool, now: Duration },
    InputHandled { black_and_white: bool },
    Drawn,
}

/// What has to be done for the event that a phase waits for.
pub open spec fn pending(phase: Phase) -> LoopAction {
    match phase {
        Phase::Starting => LoopAction::BlankPanel,
        Phase::Observing => LoopAction::Observe,
        Phase::Settling { .. } => LoopAction::WaitForUpdate,
        Phase::Arming { wake_interval } => LoopAction::ArmWakealarm(wake_interval),
        Phase::Suspending => LoopAction::SuspendToRam,
        Phase::Waking => LoopAction::RunOnWake,
        Phase::Polling { timeout_ms } => LoopAction::Poll { timeout_ms },
        Phase::Draining { .. } => LoopAction::DrainWakeups,
        Phase::RunningClosures { .. } => LoopAction::RunClosures,
        Phase::Quitting { .. } => LoopAction::CheckQuit,
        Phase::Handling => LoopAction::HandleInput,
        Phase::Drawing { frame } => LoopAction::Draw(frame),
        Phase::Stopped => LoopAction::Stop,
        Phase::Failed { error } => LoopAction::Fail(error),
    }
}

/// A span of time as a timeout for `poll(2)`: at least one millisecond, as 0 would not wait at
/// all, and at most what the timeout can hold.
pub open spec fn timeout_ms(d: Duration) -> int {
    let millis = d.nanos as int / 1_000_000;
    if millis < 1 {
        1
    } else if millis > i32::MAX {
        i32::MAX as int
    } else {
        millis
    }
}

/// How long timers and animations let the event loop wait: until the next timer is due, and no
/// longer than one frame while something is animated; else forever.
pub open spec fn poll_timeout_ms(animating: bool, next_timer: Option<Duration>) -> int {
    match next_timer {
        Some(d) => if animating && timeout_ms(d) > ANIMATION_FRAME_MILLIS {
            ANIMATION_FRAME_MILLIS as int
        } else {
            timeout_ms(d)
        },
        None => if animating {
            ANIMATION_FRAME_MILLIS as int
        } else {
            -1
        },
    }
}

/// How long the event loop waits for input. While a suspend is to come, it waits no longer than
/// until the device has been left alone for `stay_awake`, as nothing else might wake it then.
pub open spec fn wait_ms(
    schedule: Option<WakeSchedule>,
    wakealarm: bool,
    idle_nanos: int,
    animating: bool,
    next_timer: Option<Duration>,
) -> int {
    let other = poll_timeout_ms(animating, next_timer);
    match schedule {
        Some(schedule) => if wakealarm && idle_nanos < schedule.stay_awake.nanos {
            let left = timeout_ms(
                Duration { nanos: (schedule.stay_awake.nanos - idle_nanos) as u128 },
            );
            if other == -1 || left < other {
                left
            } else {
                other
            }
        } else {
            other
        },
        None => other,
    }
}

pub fn duration_to_ms(d: Duration) -> (ms: i32)
    ensures
        ms == timeout_ms(d),
{
    let millis: u128 = d.as_millis();
    if millis < 1 {
        1
    } else if millis > i32::MAX as u128 {
        i32::MAX
    } else {
        millis as i32
    }
}

/// How long timers and animations let the event loop wait.
pub fn poll_timeout(animating: bool, next_timer: Option<Duration>) -> (ms: i32)
    ensures
        ms == poll_timeout_ms(animating, next_timer),
{
    let animation_frame = Duration::from_millis(ANIMATION_FRAME_MILLIS);
    match (animating, next_timer) {
        (true, Some(d)) => if d.nanos < animation_frame.nanos {
            duration_to_ms(d)
        } else {
            duration_to_ms(animation_frame)
        },
        (true, None) => duration_to_ms(animation_frame),
        (false, Some(d)) => duration_to_ms(d),
        (false, None) => -1,
    }
}

/// Wake interval of the suspend that is due, if one is: there has to be a schedule and a
/// wakealarm to come back by, the device has to have been left alone for `stay_awake`, and
/// nothing may be pending. Timers that are not due yet do not count: they fire on resume.
pub open spec fn due_suspend(
    schedule: Option<WakeSchedule>,
    wakealarm: bool,
    idle_nanos: int,
    animating: bool,
    queue_empty: bool,
) -> Option<Duration> {
    match schedule {
        Some(schedule) => if wakealarm && idle_nanos >= schedule.stay_awake.nanos && !animating
            && queue_empty {
            Some(schedule.wake_interval)
        } else {
            None
        },
        None => None,
    }
}

/// Phase after `poll(2)` has returned: an interrupted wait starts over, any other failure and a
/// dead file descriptor end the loop, and wakeups are drained before anything else.
pub open spec fn after_poll(
    result: i32,
    errno: Option<i32>,
    touch_revents: i16,
    wakeup_revents: i16,
) -> Phase {
    if result < 0 {
        if errno == Some(EINTR) {
            Phase::Observing
        } else {
            Phase::Failed { error: LoopError::PollFailed { errno } }
        }
    } else if is_dead(touch_revents) || is_dead(wakeup_revents) {
        Phase::Failed { error: LoopError::InputDied { touch_revents, wakeup_revents } }
    } else if is_readable(wakeup_revents) {
        Phase::Draining { touched: is_readable(touch_revents) }
    } else {
        Phase::Quitting { touched: is_readable(touch_revents) }
    }
}

/// The events say that the file descriptor will never have input again.
pub open spec fn is_dead(revents: i16) -> bool {
    revents & POLLERR != 0 || revents & POLLHUP != 0 || revents & POLLNVAL != 0
}

/// The events say that there is input.
pub open spec fn is_readable(revents: i16) -> bool {
    revents & POLLIN != 0
}

fn poll_verdict(
    result: i32,
    errno: Option<i32>,
    touch_revents: i16,
    wakeup_revents: i16,
) -> (phase: Phase)
    ensures
        phase == after_poll(result, errno, touch_revents, wakeup_revents),
{
    if result < 0 {
        let interrupted: bool = match errno {
            Some(errno) => errno == EINTR,
            None => false,
        };
        return if interrupted {
            Phase::Observing
        } else {
            Phase::Failed { error: LoopError::PollFailed { errno } }
        };
    }
    // Bail if either file descriptor has died to avoid waiting forever on input
    let err_bits: i16 = POLLERR | POLLHUP | POLLNVAL;
    assert(((touch_revents | wakeup_revents) & (0x8i16 | 0x10i16 | 0x20i16) != 0) == (touch_revents
        & 0x8i16 != 0 || touch_revents & 0x10i16 != 0 || touch_revents & 0x20i16 != 0
        || wakeup_revents & 0x8i16 != 0 || wakeup_revents & 0x10i16 != 0 || wakeup_revents
        & 0x20i16 != 0)) by (bit_vector);
    if (touch_revents | wakeup_revents) & err_bits != 0 {
        return Phase::Failed { error: LoopError::InputDied { touch_revents, wakeup_revents } };
    }
    let touched: bool = touch_revents & POLLIN != 0;
    if wakeup_revents & POLLIN != 0 {
        Phase::Draining { touched }
    } else {
        Phase::Quitting { touched }
    }
}

/// The event loop between two actions.
#[derive(Clone, Copy)]
pub struct KindlePlatform {
    /// Size of the panel.
    pub fb_w: usize,
    pub fb_h: usize,
    /// Size of the rendered picture.
    pub render_w: usize,
    pub render_h: usize,
    /// Rotation of the last frame. When it changes, every pixel's place on the panel changes.
    pub last_rendered_rotation: u32,
    /// The device has a wakealarm, without which it is never suspended.
    pub wakealarm: bool,
    /// When the device was last touched, or woke, or the event loop began, since the start.
    pub last_interaction: Duration,
    pub phase: Phase,
}

impl KindlePlatform {
    /// The next frame, given what the application has asked for.
    pub open spec fn next_frame(self, state: DisplayView, black_and_white: bool) -> Frame {
        let rotation = state.render_rotation();
        let rotated = rotation != self.last_rendered_rotation;
        let (width, height) = crate::rotation::drawn_size(
            rotation,
            self.fb_w as int,
            self.fb_h as int,
        );
        Frame {
            rotation,
            render_w: width as usize,
            render_h: height as usize,
            resize: width != self.render_w || height != self.render_h,
            redraw: rotated || state.woke_from_suspend,
            full: rotated || state.full_refresh_requested,
            black_and_white,
        }
    }

    /// The picture, and the frame that is to be drawn, if any, have the size that their rotation
    /// asks for on this panel.
    pub open spec fn covers_panel(self) -> bool {
        let (width, height) = (self.fb_w as int, self.fb_h as int);
        &&& (self.render_w as int, self.render_h as int) == crate::rotation::drawn_size(
            self.last_rendered_rotation,
            width,
            height,
        )
        &&& self.phase matches Phase::Drawing { frame } ==> (
            frame.render_w as int,
            frame.render_h as int,
        ) == crate::rotation::drawn_size(frame.rotation, width, height)
    }

    /// How long the device has been left alone at time `now`.
    pub open spec fn idle_nanos(self, now: Duration) -> int {
        if now.nanos >= self.last_interaction.nanos {
            now.nanos - self.last_interaction.nanos
        } else {
            0
        }
    }

    /// Event loop and shared state after an event. An event that the loop is not waiting for
    /// changes nothing.
    pub open spec fn next(self, state: DisplayView, event: LoopEvent) -> (
        KindlePlatform,
        DisplayView,
    ) {
        match (self.phase, event) {
            (Phase::Starting, LoopEvent::Blanked { now }) => (
                KindlePlatform { last_interaction: now, phase: Phase::Observing, ..self },
                state,
            ),
            (
                Phase::Observing,
                LoopEvent::Observed { now, schedule, animating, queue_empty, next_timer },
            ) => {
                let idle = self.idle_nanos(now);
                let phase = match due_suspend(
                    schedule,
                    self.wakealarm,
                    idle,
                    animating,
                    queue_empty,
                ) {
                    Some(wake_interval) => Phase::Settling { wake_interval },
                    None => Phase::Polling {
                        timeout_ms: wait_ms(
                            schedule,
                            self.wakealarm,
                            idle,
                            animating,
                            next_timer,
                        ) as i32,
                    },
                };
                (KindlePlatform { phase, ..self }, state)
            },
            (Phase::Settling { wake_interval }, LoopEvent::Settled) => (
                KindlePlatform { phase: Phase::Arming { wake_interval }, ..self },
                state,
            ),
            (Phase::Arming { .. }, LoopEvent::Armed { .. }) => (
                KindlePlatform { phase: Phase::Suspending, ..self },
                state,
            ),
            (Phase::Suspending, LoopEvent::Resumed { ok, now, has_callback }) => (
                KindlePlatform {
                    last_interaction: now,
                    phase: if ok && has_callback {
                        Phase::Waking
                    } else {
                        Phase::Observing
                    },
                    ..self
                },
                state,
            ),
            (Phase::Waking, LoopEvent::WakeHandled) => (
                KindlePlatform { phase: Phase::Observing, ..self },
                state,
            ),
            (
                Phase::Polling { .. },
                LoopEvent::Polled { result, errno, touch_revents, wakeup_revents },
            ) => (
                KindlePlatform {
                    phase: after_poll(result, errno, touch_revents, wakeup_revents),
                    ..self
                },
                state,
            ),
            (Phase::Draining { touched }, LoopEvent::Drained) => (
                KindlePlatform { phase: Phase::RunningClosures { touched }, ..self },
                state,
            ),
            (Phase::RunningClosures { touched }, LoopEvent::ClosuresRun) => (
                KindlePlatform { phase: Phase::Quitting { touched }, ..self },
                state,
            ),
            (Phase::Quitting { touched }, LoopEvent::QuitChecked { quit, now }) => if quit {
                (KindlePlatform { phase: Phase::Stopped, ..self }, state)
            } else if touched {
                (
                    KindlePlatform { last_interaction: now, phase: Phase::Handling, ..self },
                    state,
                )
            } else {
                (KindlePlatform { phase: Phase::Handling, ..self }, state)
            },
            (Phase::Handling, LoopEvent::InputHandled { black_and_white }) => {
                let frame = self.next_frame(state, black_and_white);
                (
                    KindlePlatform {
                        render_w: frame.render_w,
                        render_h: frame.render_h,
                        last_rendered_rotation: frame.rotation,
                        phase: Phase::Drawing { frame },
                        ..self
                    },
                    DisplayView {
                        full_refresh_requested: false,
                        woke_from_suspend: false,
                        ..state
                    },
                )
            },
            (Phase::Drawing { .. }, LoopEvent::Drawn) => (
                KindlePlatform { phase: Phase::Observing, ..self },
                state,
            ),
            _ => (self, state),
        }
    }

    /// The event loop at its start, at time `now`.
    pub fn new(state: &DisplayState, fb_w: u32, fb_h: u32, wakealarm: bool, now: Duration) -> (
        platform: Self)
        ensures
            platform.fb_w == fb_w,
            platform.fb_h == fb_h,
            (platform.render_w as int, platform.render_h as int) == crate::rotation::drawn_size(
                state@.rotation,
                fb_w as int,
                fb_h as int,
            ),
            platform.last_rendered_rotation == state@.render_rotation(),
            platform.covers_panel(),
            platform.wakealarm == wakealarm,
            platform.last_interaction == now,
            platform.phase == Phase::Starting,
    {
        let (render_w, render_h): (usize, usize) = render_size(
            get_rotation(state),
            fb_w as usize,
            fb_h as usize,
        );
        let rotation: u32 = state.render_rotation();
        KindlePlatform {
            fb_w: fb_w as usize,
            fb_h: fb_h as usize,
            render_w,
            render_h,
            last_rendered_rotation: rotation,
            wakealarm,
            last_interaction: now,
            phase: Phase::Starting,
        }
    }

    /// Wake interval of the suspend that is due at time `now`, if one is.
    pub fn suspend_if_idle(
        &self,
        now: Duration,
        schedule: Option<WakeSchedule>,
        animating: bool,
        queue_empty: bool,
    ) -> (wake_interval: Option<Duration>)
        ensures
            wake_interval == due_suspend(
                schedule,
                self.wakealarm,
                self.idle_nanos(now),
                animating,
                queue_empty,
            ),
    {
        if !self.wakealarm {
            return None;
        }
        match schedule {
            Some(schedule) => {
                let nothing_pending: bool = !animating && queue_empty;
                let idle: Duration = now.saturating_sub(self.last_interaction);
                if idle.nanos < schedule.stay_awake.nanos || !nothing_pending {
                    None
                } else {
                    Some(schedule.wake_interval)
                }
            },
            None => None,
        }
    }

    /// How long the event loop waits for input from time `now` on.
    pub fn wait_timeout(
        &self,
        now: Duration,
        schedule: Option<WakeSchedule>,
        animating: bool,
        next_timer: Option<Duration>,
    ) -> (ms: i32)
        ensures
            ms == wait_ms(
                schedule,
                self.wakealarm,
                self.idle_nanos(now),
                animating,
                next_timer,
            ),
    {
        let other: i32 = poll_timeout(animating, next_timer);
        if !self.wakealarm {
            return other;
        }
        match schedule {
            Some(schedule) => {
                let idle: Duration = now.saturating_sub(self.last_interaction);
                if idle.nanos >= schedule.stay_awake.nanos {
                    return other;
                }
                let left: i32 = duration_to_ms(schedule.stay_awake.saturating_sub(idle));
                if other == -1 || left < other {
                    left
                } else {
                    other
                }
            },
            None => other,
        }
    }

    /// Start the next frame, and take note of what the application has asked for.
    fn begin_frame(&mut self, state: &mut DisplayState, black_and_white: bool) -> (frame: Frame)
        ensures
            frame == old(self).next_frame(old(state)@, black_and_white),
            *final(self) == (KindlePlatform {
                render_w: frame.render_w,
                render_h: frame.render_h,
                last_rendered_rotation: frame.rotation,
                ..*old(self)
            }),
            final(state)@ == (DisplayView {
                full_refresh_requested: false,
                woke_from_suspend: false,
                ..old(state)@
            }),
    {
        let full_refresh: bool = state.take_full_refresh();
        let rotation: u32 = state.render_rotation();
        let rotation_changed: bool = rotation != self.last_rendered_rotation;
        let woke: bool = state.take_woke_from_suspend();
        let (render_w, render_h): (usize, usize) = render_size(rotation, self.fb_w, self.fb_h);
        let frame = Frame {
            rotation,
            render_w,
            render_h,
            resize: render_w != self.render_w || render_h != self.render_h,
            redraw: rotation_changed || woke,
            full: rotation_changed || full_refresh,
            black_and_white,
        };
        self.render_w = render_w;
        self.render_h = render_h;
        self.last_rendered_rotation = rotation;
        frame
    }

    /// One step of the event loop. The action that is returned has to be carried out and
    /// answered with the event that tells how it went; the first is [`LoopAction::BlankPanel`].
    pub fn step(&mut self, state: &mut DisplayState, event: LoopEvent) -> (action: LoopAction)
        ensures
            (*final(self), final(state)@) == old(self).next(old(state)@, event),
            action == pending(final(self).phase),
    {
        match (self.phase, event) {
            (Phase::Starting, LoopEvent::Blanked { now }) => {
                self.last_interaction = now;
                self.phase = Phase::Observing;
            },
            (
                Phase::Observing,
                LoopEvent::Observed { now, schedule, animating, queue_empty, next_timer },
            ) => {
                self.phase = match self.suspend_if_idle(now, schedule, animating, queue_empty) {
                    Some(wake_interval) => Phase::Settling { wake_interval },
                    None => Phase::Polling {
                        timeout_ms: self.wait_timeout(now, schedule, animating, next_timer),
                    },
                };
            },
            (Phase::Settling { wake_interval }, LoopEvent::Settled) => {
                self.phase = Phase::Arming { wake_interval };
            },
            // If arming fails we still suspend, sleeping to save battery is better than staying
            // awake.
            (Phase::Arming { .. }, LoopEvent::Armed { .. }) => {
                self.phase = Phase::Suspending;
            },
            // Start a fresh stay_awake window so the consumer's app gets at least that long to
            // react, and fire its callback before any rendering. A device that could not be
            // suspended has not woken, so the callback does not fire.
            (Phase::Suspending, LoopEvent::Resumed { ok, now, has_callback }) => {
                self.last_interaction = now;
                self.phase = if ok && has_callback {
                    Phase::Waking
                } else {
                    Phase::Observing
                };
            },
            (Phase::Waking, LoopEvent::WakeHandled) => {
                self.phase = Phase::Observing;
            },
            (
                Phase::Polling { .. },
                LoopEvent::Polled { result, errno, touch_revents, wakeup_revents },
            ) => {
                self.phase = poll_verdict(result, errno, touch_revents, wakeup_revents);
            },
            (Phase::Draining { touched }, LoopEvent::Drained) => {
                self.phase = Phase::RunningClosures { touched };
            },
            (Phase::RunningClosures { touched }, LoopEvent::ClosuresRun) => {
                self.phase = Phase::Quitting { touched };
            },
            (Phase::Quitting { touched }, LoopEvent::QuitChecked { quit, now }) => {
                if quit {
                    self.phase = Phase::Stopped;
                } else {
                    // Touch activity counts as user interaction, so it resets the suspend
                    // countdown
                    if touched {
                        self.last_interaction = now;
                    }
                    self.phase = Phase::Handling;
                }
            },
            (Phase::Handling, LoopEvent::InputHandled { black_and_white }) => {
                let frame: Frame = self.begin_frame(state, black_and_white);
                self.phase = Phase::Drawing { frame };
            },
            (Phase::Drawing { .. }, LoopEvent::Drawn) => {
                self.phase = Phase::Observing;
            },
            _ => {},
        }
        self.action()
    }

    /// What has to be done now.
    pub fn action(&self) -> (action: LoopAction)
        ensures
            action == pending(self.phase),
    {
        match self.phase {
            Phase::Starting => LoopAction::BlankPanel,
            Phase::Observing => LoopAction::Observe,
            Phase::Settling { .. } => LoopAction::WaitForUpdate,
            Phase::Arming { wake_interval } => LoopAction::ArmWakealarm(wake_interval),
            Phase::Suspending => LoopAction::SuspendToRam,
            Phase::Waking => LoopAction::RunOnWake,
            Phase::Polling { timeout_ms } => LoopAction::Poll { timeout_ms },
            Phase::Draining { .. } => LoopAction::DrainWakeups,
            Phase::RunningClosures { .. } => LoopAction::RunClosures,
            Phase::Quitting { .. } => LoopAction::CheckQuit,
            Phase::Handling => LoopAction::HandleInput,
            Phase::Drawing { frame } => LoopAction::Draw(frame),
            Phase::Stopped => LoopAction::Stop,
            Phase::Failed { error } => LoopAction::Fail(error),
        }
    }
}

/// The panel is blanked, once, before anything else: until then the event loop does nothing, and
/// it never comes back to it.
pub proof fn law_panel_is_blanked_first_and_once(
    platform: KindlePlatform,
    state: DisplayView,
    event: LoopEvent,
)
    ensures
        platform.phase == Phase::Starting && !(event is Blanked) ==> platform.next(state, event)
            == (platform, state),
        platform.phase == Phase::Starting && event is Blanked ==> platform.next(
            state,
            event,
        ).0.phase == Phase::Observing,
        platform.next(state, event).0.phase == Phase::Starting ==> platform.phase
            == Phase::Starting,
{
}

/// Whatever the event loop waits for, the wait never ends at once, which would spin the CPU, and
/// while something is animated it is no longer than a frame. It is endless exactly if there is
/// no animation, no timer and no suspend to come.
pub proof fn law_waiting_neither_spins_nor_skips_frames(
    schedule: Option<WakeSchedule>,
    wakealarm: bool,
    idle_nanos: int,
    animating: bool,
    next_timer: Option<Duration>,
)
    requires
        0 <= idle_nanos,
    ensures
        ({
            let wait = wait_ms(schedule, wakealarm, idle_nanos, animating, next_timer);
            let suspend_to_come = wakealarm && (schedule matches Some(schedule) && idle_nanos
                < schedule.stay_awake.nanos);
            &&& wait == -1 || 1 <= wait <= i32::MAX
            &&& wait == -1 <==> !animating && next_timer is None && !suspend_to_come
            &&& animating ==> 1 <= wait <= ANIMATION_FRAME_MILLIS
            &&& poll_timeout_ms(animating, next_timer) != -1 ==> wait <= poll_timeout_ms(
                animating,
                next_timer,
            )
        }),
{
}

/// While a suspend is to come, the event loop does not sleep through it: with nothing pending it
/// waits at most for what is left of `stay_awake`, or for the one millisecond that is the
/// shortest wait.
pub proof fn law_wait_ends_when_suspend_is_due(
    platform: KindlePlatform,
    state: DisplayView,
    now: Duration,
    schedule: WakeSchedule,
    next_timer: Option<Duration>,
)
    requires
        platform.phase == Phase::Observing,
        platform.wakealarm,
        platform.idle_nanos(now) < schedule.stay_awake.nanos,
    ensures
        ({
            let observed = LoopEvent::Observed {
                now,
                schedule: Some(schedule),
                animating: false,
                queue_empty: true,
                next_timer,
            };
            let left_nanos = schedule.stay_awake.nanos - platform.idle_nanos(now);
            &&& platform.next(state, observed).0.phase matches Phase::Polling { timeout_ms }
            &&& 1 <= timeout_ms
            &&& timeout_ms == 1 || timeout_ms * 1_000_000 <= left_nanos
        }),
{
}

/// A scheduled device that is left alone is suspended without any event from outside: the wait
/// runs out, the loop goes round without counting it as an interaction, and as soon as it
/// observes that `stay_awake` is over, the suspend begins.
pub proof fn law_left_alone_is_suspended(
    platform: KindlePlatform,
    state: DisplayView,
    now: Duration,
    schedule: WakeSchedule,
    checked_at: Duration,
    black_and_white: bool,
    later: Duration,
    next_timer: Option<Duration>,
    later_timer: Option<Duration>,
)
    requires
        platform.phase == Phase::Observing,
        platform.wakealarm,
        platform.idle_nanos(now) < schedule.stay_awake.nanos,
        later.nanos >= platform.last_interaction.nanos + schedule.stay_awake.nanos,
    ensures
        ({
            let observed = LoopEvent::Observed {
                now,
                schedule: Some(schedule),
                animating: false,
                queue_empty: true,
                next_timer,
            };
            let timed_out = LoopEvent::Polled {
                result: 0,
                errno: None,
                touch_revents: 0,
                wakeup_revents: 0,
            };
            let (p1, s1) = platform.next(state, observed);
            let (p2, s2) = p1.next(s1, timed_out);
            let (p3, s3) = p2.next(s2, LoopEvent::QuitChecked { quit: false, now: checked_at });
            let (p4, s4) = p3.next(s3, LoopEvent::InputHandled { black_and_white });
            let (p5, s5) = p4.next(s4, LoopEvent::Drawn);
            let observed_later = LoopEvent::Observed {
                now: later,
                schedule: Some(schedule),
                animating: false,
                queue_empty: true,
                next_timer: later_timer,
            };
            &&& p1.phase is Polling
            &&& p5.phase == Phase::Observing
            &&& p5.last_interaction == platform.last_interaction
            &&& p5.next(s5, observed_later).0.phase == (Phase::Settling {
                wake_interval: schedule.wake_interval,
            })
        }),
{
    assert(0i16 & 0x1i16 == 0 && 0i16 & 0x8i16 == 0 && 0i16 & 0x10i16 == 0 && 0i16 & 0x20i16 == 0)
        by (bit_vector);
}

/// Without a wake schedule, or without a wakealarm to come back by, the device is never
/// suspended: no event leads to a suspend.
pub proof fn law_never_suspends_unasked(
    platform: KindlePlatform,
    state: DisplayView,
    event: LoopEvent,
)
    requires
        platform.phase == Phase::Observing,
        !platform.wakealarm || (event matches LoopEvent::Observed { schedule, .. }
            ==> schedule is None),
    ensures
        !(platform.next(state, event).0.phase is Settling),
{
}

/// Only an observation starts a suspend, and each step towards it follows the one before: the
/// panel has settled, then the wakealarm was tried, then the device is suspended. The wake
/// callback runs only after the device has woken from that suspend.
pub proof fn law_suspend_goes_step_by_step(
    platform: KindlePlatform,
    state: DisplayView,
    event: LoopEvent,
)
    requires
        platform.next(state, event).0.phase != platform.phase,
    ensures
        platform.next(state, event).0.phase is Settling ==> platform.phase == Phase::Observing,
        platform.next(state, event).0.phase is Arming ==> platform.phase is Settling,
        platform.next(state, event).0.phase is Suspending ==> platform.phase is Arming,
        platform.next(state, event).0.phase is Waking ==> platform.phase is Suspending
            && (event matches LoopEvent::Resumed { ok, .. } && ok),
{
}

/// A suspend that is due waits for the panel, arms the wakealarm with the schedule's interval,
/// suspends whether or not arming has worked, and runs the wake callback, if there is one and the
/// device has slept, before the loop goes on.
pub proof fn law_due_suspend_runs_its_course(
    platform: KindlePlatform,
    state: DisplayView,
    now: Duration,
    schedule: WakeSchedule,
    next_timer: Option<Duration>,
    armed: bool,
    suspended: bool,
    woken_at: Duration,
    has_callback: bool,
)
    requires
        platform.phase == Phase::Observing,
        platform.wakealarm,
        now.nanos >= platform.last_interaction.nanos + schedule.stay_awake.nanos,
    ensures
        ({
            let observed = LoopEvent::Observed {
                now,
                schedule: Some(schedule),
                animating: false,
                queue_empty: true,
                next_timer,
            };
            let p1 = platform.next(state, observed).0;
            let p2 = p1.next(state, LoopEvent::Settled).0;
            let p3 = p2.next(state, LoopEvent::Armed { ok: armed }).0;
            let p4 = p3.next(
                state,
                LoopEvent::Resumed { ok: suspended, now: woken_at, has_callback },
            ).0;
            &&& pending(p1.phase) == LoopAction::WaitForUpdate
            &&& pending(p2.phase) == LoopAction::ArmWakealarm(schedule.wake_interval)
            &&& pending(p3.phase) == LoopAction::SuspendToRam
            &&& suspended && has_callback ==> {
                &&& pending(p4.phase) == LoopAction::RunOnWake
                &&& p4.next(state, LoopEvent::WakeHandled).0.phase == Phase::Observing
            }
            &&& !(suspended && has_callback) ==> p4.phase == Phase::Observing
        }),
{
}

/// After a touch the device stays awake for `stay_awake`, whatever is observed until then.
pub proof fn law_touch_keeps_awake(
    platform: KindlePlatform,
    state: DisplayView,
    touched_at: Duration,
    black_and_white: bool,
    now: Duration,
    schedule: WakeSchedule,
    animating: bool,
    queue_empty: bool,
    next_timer: Option<Duration>,
)
    requires
        platform.phase == (Phase::Quitting { touched: true }),
        touched_at.nanos <= now.nanos < touched_at.nanos + schedule.stay_awake.nanos,
    ensures
        ({
            let (p1, s1) = platform.next(
                state,
                LoopEvent::QuitChecked { quit: false, now: touched_at },
            );
            let (p2, s2) = p1.next(s1, LoopEvent::InputHandled { black_and_white });
            let (p3, s3) = p2.next(s2, LoopEvent::Drawn);
            let observed = LoopEvent::Observed {
                now,
                schedule: Some(schedule),
                animating,
                queue_empty,
                next_timer,
            };
            &&& p3.phase == Phase::Observing
            &&& p3.next(s3, observed).0.phase is Polling
        }),
{
}

/// After a suspend, even one that failed, the device stays awake for `stay_awake`, whatever is
/// observed until then.
pub proof fn law_wake_keeps_awake(
    platform: KindlePlatform,
    state: DisplayView,
    suspended: bool,
    woken_at: Duration,
    has_callback: bool,
    now: Duration,
    schedule: WakeSchedule,
    animating: bool,
    queue_empty: bool,
    next_timer: Option<Duration>,
)
    requires
        platform.phase == Phase::Suspending,
        woken_at.nanos <= now.nanos < woken_at.nanos + schedule.stay_awake.nanos,
    ensures
        ({
            let resumed = LoopEvent::Resumed { ok: suspended, now: woken_at, has_callback };
            let (p1, s1) = platform.next(state, resumed);
            let (p2, s2) = p1.next(s1, LoopEvent::WakeHandled);
            let observed = LoopEvent::Observed {
                now,
                schedule: Some(schedule),
                animating,
                queue_empty,
                next_timer,
            };
            &&& p2.phase == Phase::Observing
            &&& p2.next(s2, observed).0.phase is Polling
        }),
{
}

/// The time of the last interaction changes only by a touch or a wake, and at the very start.
pub proof fn law_only_touch_and_wake_count_as_interaction(
    platform: KindlePlatform,
    state: DisplayView,
    event: LoopEvent,
)
    requires
        platform.next(state, event).0.last_interaction != platform.last_interaction,
    ensures
        platform.phase == Phase::Starting || platform.phase == Phase::Suspending || platform.phase
            == (Phase::Quitting { touched: true }),
{
}

/// While animations run or closures are queued, the device is not suspended.
pub proof fn law_pending_work_keeps_awake(
    platform: KindlePlatform,
    state: DisplayView,
    now: Duration,
    schedule: Option<WakeSchedule>,
    animating: bool,
    queue_empty: bool,
    next_timer: Option<Duration>,
)
    requires
        platform.phase == Phase::Observing,
        animating || !queue_empty,
    ensures
        platform.next(
            state,
            LoopEvent::Observed { now, schedule, animating, queue_empty, next_timer },
        ).0.phase is Polling,
{
}

/// A request for a full refresh is served by the next frame, and by that frame alone: the one
/// after it is full only if there is a reason of its own.
pub proof fn law_full_refresh_is_served_once(
    platform: KindlePlatform,
    state: DisplayView,
    black_and_white: bool,
)
    requires
        platform.phase == Phase::Handling,
        state.full_refresh_requested,
    ensures
        ({
            let (after, state_after) = platform.next(
                state,
                LoopEvent::InputHandled { black_and_white },
            );
            &&& after.phase matches Phase::Drawing { frame } && frame.full
            &&& !after.next_frame(state_after, black_and_white).full
            &&& !after.next_frame(state_after, black_and_white).redraw
            &&& !after.next_frame(state_after, black_and_white).resize
        }),
{
}

/// A rotation at run time makes the next frame a full one, and if the picture has to move on the
/// panel it is rendered again, at the size that the new rotation asks for.
pub proof fn law_rotation_redraws_everything(
    platform: KindlePlatform,
    state: DisplayView,
    degrees: u32,
    black_and_white: bool,
)
    requires
        state.wf(),
    ensures
        ({
            let rotated = state.rotated(degrees);
            let frame = platform.next_frame(rotated, black_and_white);
            let moved = rotated.render_rotation() != platform.last_rendered_rotation;
            &&& frame.full
            &&& moved ==> frame.redraw
            &&& frame.rotation == rotated.render_rotation()
            &&& (frame.render_w as int, frame.render_h as int) == crate::rotation::drawn_size(
                degrees % 360,
                platform.fb_w as int,
                platform.fb_h as int,
            )
        }),
{
    crate::state::law_offset_keeps_orientation(state.rotated(degrees));
}

/// The picture always has the size that its rotation asks for, so that it covers the panel
/// exactly: it does at the start, each event keeps it so, and each frame is made for it.
pub proof fn law_picture_always_covers_the_panel(
    platform: KindlePlatform,
    state: DisplayView,
    event: LoopEvent,
)
    requires
        state.wf(),
        platform.covers_panel(),
    ensures
        platform.next(state, event).0.covers_panel(),
        platform.next(state, event).1.wf(),
{
}

/// After a wake refresh, the next frame is rendered again and replaces the whole panel, so that
/// nothing of the sleep image stays.
pub proof fn law_wake_refresh_replaces_sleep_image(
    platform: KindlePlatform,
    state: DisplayView,
    black_and_white: bool,
)
    ensures
        platform.next_frame(state.woken(), black_and_white).full,
        platform.next_frame(state.woken(), black_and_white).redraw,
{
}

/// An event loop that has stopped or failed stays so.
pub proof fn law_end_is_final(platform: KindlePlatform, state: DisplayView, event: LoopEvent)
    requires
        platform.phase is Stopped || platform.phase is Failed,
    ensures
        platform.next(state, event) == (platform, state),
{
}

/// The wakeup pipe is emptied before the queued closures run, they run before the application is
/// asked whether it wants to quit, and input is handled only if it does not.
pub proof fn law_wakeups_come_before_quit_and_quit_before_input(
    platform: KindlePlatform,
    state: DisplayView,
    event: LoopEvent,
)
    requires
        platform.next(state, event).0.phase != platform.phase,
    ensures
        platform.next(state, event).0.phase is RunningClosures ==> platform.phase is Draining
            && event is Drained,
        platform.next(state, event).0.phase is Draining ==> platform.phase is Polling && (
        event matches LoopEvent::Polled { wakeup_revents, .. } && is_readable(wakeup_revents)),
        platform.next(state, event).0.phase is Quitting ==> {
            ||| platform.phase is RunningClosures
            ||| platform.phase is Polling && (event matches LoopEvent::Polled { wakeup_revents, .. }
                && !is_readable(wakeup_revents))
        },
        platform.next(state, event).0.phase is Handling ==> platform.phase is Quitting
            && (event matches LoopEvent::QuitChecked { quit, .. } && !quit),
        platform.next(state, event).0.phase is Stopped ==> platform.phase is Quitting
            && (event matches LoopEvent::QuitChecked { quit, .. } && quit),
{
}

/// A frame is drawn in the mode that the application has set: in black and white exactly if it has
/// asked for that, whatever else is going on.
pub proof fn law_frames_are_drawn_in_the_mode_that_was_set(
    platform: KindlePlatform,
    state: DisplayView,
    black_and_white: bool,
)
    requires
        platform.phase == Phase::Handling,
    ensures
        platform.next(state, LoopEvent::InputHandled { black_and_white }).0.phase matches
            Phase::Drawing { frame } && frame.black_and_white == black_and_white,
{
}

/// A frame is what was asked for: it has the rotation that was set, turned over by the launch
/// offset, and the size that this rotation needs on the panel. All of the panel is written exactly
/// if that was requested or the rotation has changed, and the picture is rendered again exactly if
/// the device woke or the rotation has changed. With the frame the requests are served, and
/// everything else stays as it is.
pub proof fn law_frames_are_what_was_asked_for(
    platform: KindlePlatform,
    state: DisplayView,
    black_and_white: bool,
)
    requires
        state.wf(),
        platform.phase == Phase::Handling,
    ensures
        ({
            let (after, state_after) = platform.next(
                state,
                LoopEvent::InputHandled { black_and_white },
            );
            &&& after.phase matches Phase::Drawing { frame }
            &&& frame.rotation < 360
            &&& state.render_offset == 0 ==> frame.rotation == state.rotation
            &&& state.render_offset == 180 ==> frame.rotation == state.rotation + 180
                || frame.rotation == state.rotation - 180
            &&& frame.rotation == 90 || frame.rotation == 270 ==> frame.render_w == platform.fb_h
                && frame.render_h == platform.fb_w
            &&& frame.rotation != 90 && frame.rotation != 270 ==> frame.render_w == platform.fb_w
                && frame.render_h == platform.fb_h
            &&& frame.resize <==> frame.render_w != platform.render_w || frame.render_h
                != platform.render_h
            &&& frame.full <==> state.full_refresh_requested || frame.rotation
                != platform.last_rendered_rotation
            &&& frame.redraw <==> state.woke_from_suspend || frame.rotation
                != platform.last_rendered_rotation
            &&& after.render_w == frame.render_w
            &&& after.render_h == frame.render_h
            &&& after.last_rendered_rotation == frame.rotation
            &&& after.last_interaction == platform.last_interaction
            &&& !state_after.full_refresh_requested
            &&& !state_after.woke_from_suspend
            &&& state == (DisplayView {
                full_refresh_requested: state.full_refresh_requested,
                woke_from_suspend: state.woke_from_suspend,
                ..state_after
            })
            &&& frame == platform.next_frame(state, black_and_white)
        }),
{
}

/// Every frame of the event loop can be drawn on its panel, as soon as all its pixels are there.
pub proof fn law_frames_are_for_the_panel(
    platform: KindlePlatform,
    state: DisplayView,
    black_and_white: bool,
    panel: crate::raster::Raster,
    rgb: Seq<crate::gray::Rgb8Pixel>,
)
    requires
        platform.phase == Phase::Handling,
        panel.width == platform.fb_w,
        panel.height == platform.fb_h,
        rgb.len() == panel.width * panel.height,
    ensures
        platform.next(state, LoopEvent::InputHandled { black_and_white }).0.phase matches
            Phase::Drawing { frame } && frame.is_for(panel, rgb),
{
    assert(panel.width * panel.height == panel.height * panel.width) by (nonlinear_arith);
}

/// A suspend is due exactly if there is a wakealarm and a schedule, the device has been left alone
/// for `stay_awake`, nothing is animated and no closure is queued; it is then for the interval of
/// the schedule. Otherwise the loop waits for input.
pub proof fn law_suspend_is_due_exactly_when_left_alone(
    platform: KindlePlatform,
    state: DisplayView,
    now: Duration,
    schedule: Option<WakeSchedule>,
    animating: bool,
    queue_empty: bool,
    next_timer: Option<Duration>,
)
    requires
        platform.phase == Phase::Observing,
    ensures
        ({
            let observed = LoopEvent::Observed {
                now,
                schedule,
                animating,
                queue_empty,
                next_timer,
            };
            let (after, state_after) = platform.next(state, observed);
            let due = platform.wakealarm && !animating && queue_empty && schedule is Some && ((
            schedule->0).stay_awake.nanos == 0 || platform.last_interaction.nanos + (
            schedule->0).stay_awake.nanos <= now.nanos);
            &&& due ==> after.phase == (Phase::Settling {
                wake_interval: (schedule->0).wake_interval,
            })
            &&& !due ==> after.phase is Polling
            &&& platform == (KindlePlatform { phase: platform.phase, ..after })
            &&& state_after == state
        }),
{
}

/// A timeout is the span in whole milliseconds, rounded down, but never less than one and never
/// more than it can hold.
pub proof fn law_timeouts_are_whole_milliseconds(d: Duration)
    ensures
        1 <= timeout_ms(d) <= i32::MAX,
        d.nanos < 2_000_000 ==> timeout_ms(d) == 1,
        1_000_000 <= d.nanos < 0x8000_0000 * 1_000_000 ==> timeout_ms(d) * 1_000_000 <= d.nanos < (
        timeout_ms(d) + 1) * 1_000_000,
        d.nanos >= 0x8000_0000 * 1_000_000 ==> timeout_ms(d) == i32::MAX,
{
}

/// The wait is as long as the first of its reasons to end allows, and no shorter: a timer that
/// comes due, the next frame of an animation after 33 milliseconds, the end of `stay_awake`.
pub proof fn law_wait_ends_for_the_first_reason(
    schedule: Option<WakeSchedule>,
    wakealarm: bool,
    idle_nanos: int,
    animating: bool,
    next_timer: Option<Duration>,
)
    requires
        0 <= idle_nanos,
    ensures
        ({
            let wait = wait_ms(schedule, wakealarm, idle_nanos, animating, next_timer);
            let suspend_to_come = wakealarm && schedule is Some && idle_nanos < (
            schedule->0).stay_awake.nanos;
            let left = Duration { nanos: ((schedule->0).stay_awake.nanos - idle_nanos) as u128 };
            &&& wait == -1 <==> !animating && next_timer is None && !suspend_to_come
            &&& animating ==> wait <= 33
            &&& next_timer is Some ==> wait <= timeout_ms(next_timer->0)
            &&& suspend_to_come ==> wait <= timeout_ms(left)
            &&& wait != -1 ==> {
                ||| animating && wait == 33
                ||| next_timer is Some && wait == timeout_ms(next_timer->0)
                ||| suspend_to_come && wait == timeout_ms(left)
            }
        }),
        poll_timeout_ms(animating, next_timer) == wait_ms(
            None,
            wakealarm,
            idle_nanos,
            animating,
            next_timer,
        ),
{
}

/// The event loop waits as long as its reasons allow at the time of the observation.
pub proof fn law_loop_waits_as_long_as_it_may(
    platform: KindlePlatform,
    state: DisplayView,
    now: Duration,
    schedule: Option<WakeSchedule>,
    animating: bool,
    queue_empty: bool,
    next_timer: Option<Duration>,
    idle_nanos: int,
)
    requires
        platform.phase == Phase::Observing,
        now.nanos >= platform.last_interaction.nanos ==> idle_nanos == now.nanos
            - platform.last_interaction.nanos,
        now.nanos < platform.last_interaction.nanos ==> idle_nanos == 0,
    ensures
        platform.idle_nanos(now) == idle_nanos,
        platform.next(
            state,
            LoopEvent::Observed { now, schedule, animating, queue_empty, next_timer },
        ).0.phase matches Phase::Polling { timeout_ms } ==> timeout_ms == wait_ms(
            schedule,
            platform.wakealarm,
            idle_nanos,
            animating,
            next_timer,
        ),
{
}

/// What `poll(2)` reports decides how the loop goes on: a wait that a signal interrupted (error
/// number 4) starts over and any other failure ends the loop with its error number; an error, a
/// hang-up or a closed file descriptor (the bits 8, 16 and 32) on either input ends it with what
/// was reported; else a wakeup is drained, and a touch is kept in mind, where their lowest bit is
/// set.
pub proof fn law_poll_decides_how_the_loop_goes_on(
    platform: KindlePlatform,
    state: DisplayView,
    result: i32,
    errno: Option<i32>,
    touch_revents: i16,
    wakeup_revents: i16,
)
    requires
        platform.phase is Polling,
    ensures
        ({
            let (after, state_after) = platform.next(
                state,
                LoopEvent::Polled { result, errno, touch_revents, wakeup_revents },
            );
            let dead = (touch_revents | wakeup_revents) & 56i16 != 0;
            let touched = touch_revents & 1i16 != 0;
            let woken = wakeup_revents & 1i16 != 0;
            &&& result < 0 && errno == Some(4i32) ==> after.phase == Phase::Observing
            &&& result < 0 && errno != Some(4i32) ==> after.phase == (Phase::Failed {
                error: LoopError::PollFailed { errno },
            })
            &&& result >= 0 && dead ==> after.phase == (Phase::Failed {
                error: LoopError::InputDied { touch_revents, wakeup_revents },
            })
            &&& result >= 0 && !dead && woken ==> after.phase == (Phase::Draining { touched })
            &&& result >= 0 && !dead && !woken ==> after.phase == (Phase::Quitting { touched })
            &&& platform == (KindlePlatform { phase: platform.phase, ..after })
            &&& state_after == state
        }),
{
    assert(((touch_revents | wakeup_revents) & 56i16 != 0) == (touch_revents & 0x8i16 != 0
        || touch_revents & 0x10i16 != 0 || touch_revents & 0x20i16 != 0 || wakeup_revents & 0x8i16
        != 0 || wakeup_revents & 0x10i16 != 0 || wakeup_revents & 0x20i16 != 0)) by (bit_vector);
}

/// A touch that comes together with a wakeup is not lost while closures run: it still counts as
/// an interaction, at the time when the application was asked whether it wants to quit. Without a
/// touch, the time of the last interaction stays.
pub proof fn law_touch_outlasts_the_wakeups(
    platform: KindlePlatform,
    state: DisplayView,
    touched: bool,
    now: Duration,
)
    requires
        platform.phase == (Phase::Draining { touched }),
    ensures
        ({
            let (p1, s1) = platform.next(state, LoopEvent::Drained);
            let (p2, s2) = p1.next(s1, LoopEvent::ClosuresRun);
            let (p3, s3) = p2.next(s2, LoopEvent::QuitChecked { quit: false, now });
            &&& pending(p1.phase) == LoopAction::RunClosures
            &&& pending(p2.phase) == LoopAction::CheckQuit
            &&& pending(p3.phase) == LoopAction::HandleInput
            &&& touched ==> p3.last_interaction == now
            &&& !touched ==> p3.last_interaction == platform.last_interaction
        }),
{
}

/// Each answer leads on as it should: the suspend keeps the interval that it was started for, the
/// time of a wake or of the start is the time of the last interaction, and only the wake from a
/// suspend that took place runs a callback.
pub proof fn law_answers_lead_on(
    platform: KindlePlatform,
    state: DisplayView,
    wake_interval: Duration,
    now: Duration,
    ok: bool,
    has_callback: bool,
    touched: bool,
)
    ensures
        platform.phase == Phase::Starting ==> platform.next(
            state,
            LoopEvent::Blanked { now },
        ).0.last_interaction == now,
        platform.phase == (Phase::Settling { wake_interval }) ==> platform.next(
            state,
            LoopEvent::Settled,
        ).0.phase == (Phase::Arming { wake_interval }),
        platform.phase == (Phase::Arming { wake_interval }) ==> platform.next(
            state,
            LoopEvent::Armed { ok },
        ).0.phase == Phase::Suspending,
        platform.phase == Phase::Suspending ==> ({
            let after = platform.next(state, LoopEvent::Resumed { ok, now, has_callback }).0;
            &&& after.last_interaction == now
            &&& ok && has_callback ==> after.phase == Phase::Waking
            &&& !ok || !has_callback ==> after.phase == Phase::Observing
        }),
        platform.phase == Phase::Waking ==> platform.next(state, LoopEvent::WakeHandled).0.phase
            == Phase::Observing,
        platform.phase == (Phase::Quitting { touched }) ==> ({
            let stopped = platform.next(state, LoopEvent::QuitChecked { quit: true, now }).0;
            let going = platform.next(state, LoopEvent::QuitChecked { quit: false, now }).0;
            &&& stopped.phase == Phase::Stopped
            &&& going.phase == Phase::Handling
            &&& touched ==> going.last_interaction == now
            &&& !touched ==> going.last_interaction == platform.last_interaction
        }),
        platform.phase is Drawing ==> platform.next(state, LoopEvent::Drawn).0.phase
            == Phase::Observing,
{
}

/// The panel and the wakealarm stay what they are, and what the application has asked for, the
/// size of the picture and its rotation change only when a frame begins.
pub proof fn law_loop_changes_only_what_the_event_is_about(
    platform: KindlePlatform,
    state: DisplayView,
    event: LoopEvent,
)
    ensures
        ({
            let (after, state_after) = platform.next(state, event);
            &&& after.fb_w == platform.fb_w
            &&& after.fb_h == platform.fb_h
            &&& after.wakealarm == platform.wakealarm
            &&& platform.phase != Phase::Handling ==> {
                &&& state_after == state
                &&& after.render_w == platform.render_w
                &&& after.render_h == platform.render_h
                &&& after.last_rendered_rotation == platform.last_rendered_rotation
            }
        }),
{
}

/// An event that does not answer what the loop waits for changes nothing.
pub proof fn law_unasked_events_change_nothing(
    platform: KindlePlatform,
    state: DisplayView,
    event: LoopEvent,
)
    requires
        match pending(platform.phase) {
            LoopAction::BlankPanel => !(event is Blanked),
            LoopAction::Observe => !(event is Observed),
            LoopAction::WaitForUpdate => !(event is Settled),
            LoopAction::ArmWakealarm(_) => !(event is Armed),
            LoopAction::SuspendToRam => !(event is Resumed),
            LoopAction::RunOnWake => !(event is WakeHandled),
            LoopAction::Poll { .. } => !(event is Polled),
            LoopAction::DrainWakeups => !(event is Drained),
            LoopAction::RunClosures => !(event is ClosuresRun),
            LoopAction::CheckQuit => !(event is QuitChecked),
            LoopAction::HandleInput => !(event is InputHandled),
            LoopAction::Draw(_) => !(event is Drawn),
            LoopAction::Stop => true,
            LoopAction::Fail(_) => true,
        },
    ensures
        platform.next(state, event) == (platform, state),
{
}

/// What has to be done tells what the loop waits for, with the values that belong to it: the
/// interval of the wakealarm, the timeout, the frame, the error.
pub proof fn law_actions_tell_what_the_loop_waits_for(phase: Phase)
    ensures
        phase == Phase::Starting <==> pending(phase) == LoopAction::BlankPanel,
        phase == Phase::Observing <==> pending(phase) == LoopAction::Observe,
        phase is Settling <==> pending(phase) == LoopAction::WaitForUpdate,
        phase is Arming <==> pending(phase) is ArmWakealarm,
        phase matches Phase::Arming { wake_interval } ==> pending(phase)
            == LoopAction::ArmWakealarm(wake_interval),
        phase == Phase::Suspending <==> pending(phase) == LoopAction::SuspendToRam,
        phase == Phase::Waking <==> pending(phase) == LoopAction::RunOnWake,
        phase is Polling <==> pending(phase) is Poll,
        phase matches Phase::Polling { timeout_ms } ==> pending(phase) == (LoopAction::Poll {
            timeout_ms,
        }),
        phase is Draining <==> pending(phase) == LoopAction::DrainWakeups,
        phase is RunningClosures <==> pending(phase) == LoopAction::RunClosures,
        phase is Quitting <==> pending(phase) == LoopAction::CheckQuit,
        phase == Phase::Handling <==> pending(phase) == LoopAction::HandleInput,
        phase is Drawing <==> pending(phase) is Draw,
        phase matches Phase::Drawing { frame } ==> pending(phase) == LoopAction::Draw(frame),
        phase == Phase::Stopped <==> pending(phase) == LoopAction::Stop,
        phase is Failed <==> pending(phase) is Fail,
        phase matches Phase::Failed { error } ==> pending(phase) == LoopAction::Fail(error),
{
}

/// The picture covers the panel exactly if it has the panel's sides, swapped if it lies sideways,
/// and so does the frame that is to be drawn, if there is one.
pub proof fn law_covering_pictures_have_the_panel_sides(platform: KindlePlatform)
    ensures
        platform.covers_panel() ==> {
            let sideways = platform.last_rendered_rotation == 90 || platform.last_rendered_rotation
                == 270;
            &&& sideways ==> platform.render_w == platform.fb_h && platform.render_h
                == platform.fb_w
            &&& !sideways ==> platform.render_w == platform.fb_w && platform.render_h
                == platform.fb_h
        },
        platform.covers_panel() ==> (platform.phase matches Phase::Drawing { frame } ==> {
            let sideways = frame.rotation == 90 || frame.rotation == 270;
            &&& sideways ==> frame.render_w == platform.fb_h && frame.render_h == platform.fb_w
            &&& !sideways ==> frame.render_w == platform.fb_w && frame.render_h == platform.fb_h
        }),
{
}

} // verus!
