//! The application's handle on the backend: black-and-white mode and the wake schedule.

use std::marker::PhantomData;
use vstd::prelude::*;

use crate::duration::Duration;

verus! {

/// How often to wake from suspend-to-RAM and how long to stay awake afterwards.
///
/// Pass to [`KindleBackend::set_wake_schedule`] to opt in. Without it, the backend never
/// suspends the SoC: the event loop just blocks in `poll(2)`, which is fine for plugged-in use
/// but burns battery.
///
/// Touch activity during the awake window resets `stay_awake`, exactly like the device's normal
/// idle timer.
#[derive(Clone, Copy, Debug)]
pub struct WakeSchedule {
    /// Time between scheduled wakes from suspend.
    pub wake_interval: Duration,
    /// How long to stay awake after a wake or the last touch.
    pub stay_awake: Duration,
}

/// Says of a backend whether it has a wake schedule.
pub trait ScheduleState {
    spec fn scheduled() -> bool;
}

/// The backend has no wake schedule.
pub struct NoSchedule;

/// The backend has a wake schedule.
pub struct Scheduled;

impl ScheduleState for NoSchedule {
    open spec fn scheduled() -> bool {
        false
    }
}

impl ScheduleState for Scheduled {
    open spec fn scheduled() -> bool {
        true
    }
}

/// What the application has set. `C` is the type of the wake callback.
pub struct BackendView<C> {
    pub wake_schedule: Option<WakeSchedule>,
    pub on_wake: Option<C>,
    pub black_and_white: bool,
}

impl<C> BackendView<C> {
    /// There is a schedule exactly if there is said to be one, and a callback only together with
    /// a schedule: without one, nothing could ever run it.
    pub open spec fn wf(self, scheduled: bool) -> bool {
        &&& self.wake_schedule is Some <==> scheduled
        &&& self.on_wake is Some ==> scheduled
    }

    /// After a wake schedule was set.
    pub open spec fn with_schedule(self, schedule: WakeSchedule) -> BackendView<C> {
        BackendView { wake_schedule: Some(schedule), ..self }
    }

    /// After a wake callback was set.
    pub open spec fn with_callback(self, callback: C) -> BackendView<C> {
        BackendView { on_wake: Some(callback), ..self }
    }

    /// After the wake cycle was turned off.
    pub open spec fn without_schedule(self) -> BackendView<C> {
        BackendView { wake_schedule: None, on_wake: None, ..self }
    }
}

/// Configures black-and-white mode and power.
///
/// A new backend is [`NoSchedule`]. Calling [`set_wake_schedule`](KindleBackend::set_wake_schedule)
/// turns it into a [`Scheduled`] one, and only that form has [`on_wake`](KindleBackend::on_wake),
/// so you can't set a wake callback without first setting up a wake schedule.
pub struct KindleBackend<C, State: ScheduleState = NoSchedule> {
    wake_schedule: Option<WakeSchedule>,
    on_wake: Option<C>,
    black_and_white: bool,
    state: PhantomData<State>,
}

impl<C, State: ScheduleState> View for KindleBackend<C, State> {
    type V = BackendView<C>;

    closed spec fn view(&self) -> BackendView<C> {
        BackendView {
            wake_schedule: self.wake_schedule,
            on_wake: self.on_wake,
            black_and_white: self.black_and_white,
        }
    }
}

impl<C, State: ScheduleState> KindleBackend<C, State> {
    #[verifier::type_invariant]
    spec fn inv(self) -> bool {
        self@.wf(State::scheduled())
    }

    /// Render in **pure black and white** (bilevel) mode: force every pixel to pure black or
    /// white, with no grey levels at all. Useful on devices where greyscale rendering causes a
    /// flicker through black to be displayed.
    ///
    /// Off by default. A change takes effect on the next render.
    pub fn set_black_and_white(&mut self, enabled: bool)
        ensures
            final(self)@ == (BackendView { black_and_white: enabled, ..old(self)@ }),
    {
        proof {
            use_type_invariant(&*self);
        }
        self.black_and_white = enabled;
    }

    pub fn black_and_white(&self) -> (enabled: bool)
        ensures
            enabled == self@.black_and_white,
    {
        self.black_and_white
    }

    /// The wake schedule that is in force.
    pub fn wake_schedule(&self) -> (schedule: Option<WakeSchedule>)
        ensures
            schedule == self@.wake_schedule,
            self@.wf(State::scheduled()),
    {
        proof {
            use_type_invariant(self);
        }
        self.wake_schedule
    }

    /// The callback to run when the device wakes from a scheduled suspend.
    pub fn wake_callback(&self) -> (callback: Option<&C>)
        ensures
            callback == (match self@.on_wake {
                Some(callback) => Some(&callback),
                None => None,
            }),
            self@.wf(State::scheduled()),
    {
        proof {
            use_type_invariant(self);
        }
        self.on_wake.as_ref()
    }

    /// Switch state, with the schedule and the callback that belong to the new one.
    fn into_state<Next: ScheduleState>(
        self,
        wake_schedule: Option<WakeSchedule>,
        on_wake: Option<C>,
    ) -> (next: KindleBackend<C, Next>)
        requires
            (BackendView { wake_schedule, on_wake, ..self@ }).wf(Next::scheduled()),
        ensures
            next@ == (BackendView { wake_schedule, on_wake, ..self@ }),
    {
        KindleBackend {
            wake_schedule,
            on_wake,
            black_and_white: self.black_and_white,
            state: PhantomData,
        }
    }
}

impl<C> KindleBackend<C, NoSchedule> {
    pub fn new() -> (backend: Self)
        ensures
            backend@ == (BackendView::<C> {
                wake_schedule: None,
                on_wake: None,
                black_and_white: false,
            }),
    {
        KindleBackend {
            wake_schedule: None,
            on_wake: None,
            black_and_white: false,
            state: PhantomData,
        }
    }

    /// Turn on the wake-from-suspend cycle.
    ///
    /// The device sleeps once your app has been idle for `stay_awake`, then wakes every
    /// `wake_interval` (or earlier, e.g. on a button press) so it can refresh.
    ///
    /// Returns a [`Scheduled`] backend that lets you set [`on_wake`](KindleBackend::on_wake).
    pub fn set_wake_schedule(self, schedule: WakeSchedule) -> (backend: KindleBackend<C, Scheduled>)
        ensures
            backend@ == self@.with_schedule(schedule),
            backend@.wake_schedule == Some(schedule),
            backend@.on_wake is None,
    {
        proof {
            use_type_invariant(&self);
        }
        self.into_state(Some(schedule), None)
    }
}

impl<C> KindleBackend<C, Scheduled> {
    /// Change the wake schedule.
    ///
    /// The new schedule takes effect the next time the device is awake (it can't be reached
    /// while asleep).
    pub fn set_wake_schedule(&mut self, schedule: WakeSchedule)
        ensures
            final(self)@ == old(self)@.with_schedule(schedule),
            final(self)@.wake_schedule == Some(schedule),
    {
        proof {
            use_type_invariant(&*self);
        }
        self.wake_schedule = Some(schedule);
    }

    /// Turn the wake cycle back off.
    ///
    /// Forgets the [`on_wake`](KindleBackend::on_wake) callback, since it can't fire anymore.
    /// Takes effect the next time the device is awake.
    pub fn clear_wake_schedule(self) -> (backend: KindleBackend<C, NoSchedule>)
        ensures
            backend@ == self@.without_schedule(),
    {
        self.into_state(None, None)
    }

    /// Run `callback` once each time the device wakes from a scheduled suspend.
    ///
    /// Replaces any previously-set callback. Not invoked on the initial start of the app.
    pub fn on_wake(&mut self, callback: C)
        ensures
            final(self)@ == old(self)@.with_callback(callback),
    {
        proof {
            use_type_invariant(&*self);
        }
        self.on_wake = Some(callback);
    }
}

/// Turning the wake cycle on and off again leaves the backend as it was, whatever schedules and
/// callbacks were set in between; in particular, no callback comes back with the next schedule.
pub proof fn law_turning_off_undoes_turning_on<C>(
    backend: BackendView<C>,
    schedule: WakeSchedule,
    callback: C,
    later_schedule: WakeSchedule,
)
    requires
        backend.wf(false),
    ensures
        backend.with_schedule(schedule).wf(true),
        backend.with_schedule(schedule).with_callback(callback).wf(true),
        backend.with_schedule(schedule).without_schedule() == backend,
        backend.with_schedule(schedule).with_callback(callback).with_schedule(
            later_schedule,
        ).without_schedule() == backend,
{
}

/// Only the last schedule and the last callback count, and neither touches the other.
pub proof fn law_last_setting_counts<C>(
    backend: BackendView<C>,
    schedule: WakeSchedule,
    later_schedule: WakeSchedule,
    callback: C,
    later_callback: C,
)
    ensures
        backend.with_schedule(schedule).with_schedule(later_schedule) == backend.with_schedule(
            later_schedule,
        ),
        backend.with_callback(callback).with_callback(later_callback) == backend.with_callback(
            later_callback,
        ),
        backend.with_schedule(schedule).with_callback(callback) == backend.with_callback(
            callback,
        ).with_schedule(schedule),
{
}

/// What the application sets is what is in force, to the last detail, and everything else stays
/// as it is: a schedule with its wake interval and its time to stay awake, a callback, and neither
/// of them after the wake cycle was turned off.
pub proof fn law_what_is_set_is_in_force<C>(
    backend: BackendView<C>,
    schedule: WakeSchedule,
    callback: C,
)
    ensures
        ({
            let set = backend.with_schedule(schedule);
            &&& set.wake_schedule matches Some(kept)
            &&& kept.wake_interval.nanos == schedule.wake_interval.nanos
            &&& kept.stay_awake.nanos == schedule.stay_awake.nanos
            &&& set.on_wake == backend.on_wake
            &&& set.black_and_white == backend.black_and_white
        }),
        ({
            let set = backend.with_callback(callback);
            &&& set.on_wake == Some(callback)
            &&& set.wake_schedule == backend.wake_schedule
            &&& set.black_and_white == backend.black_and_white
        }),
        ({
            let off = backend.without_schedule();
            &&& off.wake_schedule is None
            &&& off.on_wake is None
            &&& off.black_and_white == backend.black_and_white
        }),
{
}

} // verus!
