//! What the application has told the backend about the screen: rotation, refresh requests and
//! the sleep screen.

use vstd::prelude::*;

use crate::raster::{GrayImage, Raster};

verus! {

/// Size that is taken for the panel when the panel cannot be asked.
pub const FALLBACK_WIDTH: u32 = 1072;

pub const FALLBACK_HEIGHT: u32 = 1448;

/// What a [`DisplayState`] holds.
pub struct DisplayView {
    /// Screen rotation in degrees.
    pub rotation: u32,
    /// Rotation that every render adds, to make up for the way the panel was set up at launch.
    pub render_offset: u32,
    pub full_refresh_requested: bool,
    pub woke_from_suspend: bool,
    /// The sleep screen, if it was rendered ahead of time.
    pub sleep_screen: Option<Raster>,
    pub sleep_background_white: bool,
    pub sleep_image_name: Seq<char>,
    /// When the screen was last touched, in seconds since the Unix epoch.
    pub last_activity: i64,
    pub screen_width: u32,
    pub screen_height: u32,
    /// Number of the newest pre-render.
    pub pre_render_generation: u32,
    /// Number of the newest pre-render that was started before the sleep image was chosen.
    pub stale_generation: u32,
}

impl DisplayView {
    pub open spec fn wf(self) -> bool {
        &&& self.rotation < 360
        &&& self.render_offset == 0 || self.render_offset == 180
        &&& self.stale_generation <= self.pre_render_generation
    }

    /// State before the application has said anything.
    pub open spec fn initial() -> DisplayView {
        DisplayView {
            rotation: 0,
            render_offset: 0,
            full_refresh_requested: false,
            woke_from_suspend: false,
            sleep_screen: None,
            sleep_background_white: true,
            sleep_image_name: Seq::empty(),
            last_activity: 0,
            screen_width: 0,
            screen_height: 0,
            pre_render_generation: 0,
            stale_generation: 0,
        }
    }

    /// After the application has rotated the screen.
    pub open spec fn rotated(self, degrees: u32) -> DisplayView {
        DisplayView { rotation: degrees % 360, full_refresh_requested: true, ..self }
    }

    /// After the application has asked for the sleep image to be cleared off the screen.
    pub open spec fn woken(self) -> DisplayView {
        DisplayView { full_refresh_requested: true, woke_from_suspend: true, ..self }
    }

    /// After the application has chosen a sleep image. Whatever was rendered ahead of time, or is
    /// being rendered, was for an earlier choice.
    pub open spec fn sleep_image_chosen(self, name: Seq<char>) -> DisplayView {
        DisplayView {
            sleep_image_name: name,
            sleep_screen: None,
            stale_generation: self.pre_render_generation,
            ..self
        }
    }

    /// After a new pre-render was started.
    pub open spec fn pre_render_started(self) -> DisplayView {
        DisplayView { pre_render_generation: (self.pre_render_generation + 1) as u32, ..self }
    }

    /// What a pre-render has to show for itself is still wanted: no newer one was started since,
    /// and no sleep image was chosen.
    pub open spec fn wants(self, generation: u32) -> bool {
        self.pre_render_generation == generation && self.stale_generation < generation
    }

    /// After the application has thrown away the sleep screen that was rendered ahead of time.
    pub open spec fn sleep_screen_forgotten(self) -> DisplayView {
        DisplayView { sleep_screen: None, ..self }
    }

    /// Rotation with which the picture is brought to the panel.
    pub open spec fn render_rotation(self) -> u32 {
        ((self.rotation + self.render_offset) % 360) as u32
    }

    /// The panel's size, if the application has set one.
    pub open spec fn known_screen(self) -> Option<(u32, u32)> {
        if self.screen_width > 0 && self.screen_height > 0 {
            Some((self.screen_width, self.screen_height))
        } else {
            None
        }
    }

    /// The panel's size: the one that was set, else that of the opened panel, else a fallback.
    pub open spec fn screen_dimensions(self, opened: Option<(u32, u32)>) -> (u32, u32) {
        match (self.known_screen(), opened) {
            (Some(size), _) => size,
            (None, Some(size)) => size,
            (None, None) => (FALLBACK_WIDTH, FALLBACK_HEIGHT),
        }
    }

    /// Level of the pixels around a sleep image that does not fill the screen.
    pub open spec fn sleep_background(self) -> u8 {
        if self.sleep_background_white {
            255
        } else {
            0
        }
    }
}

/// State of the screen that the application and the event loop share.
pub struct DisplayState {
    rotation: u32,
    render_offset: u32,
    full_refresh_requested: bool,
    woke_from_suspend: bool,
    sleep_screen: Option<GrayImage>,
    sleep_background_white: bool,
    sleep_image_name: String,
    last_activity: i64,
    screen_width: u32,
    screen_height: u32,
    pre_render_generation: u32,
    stale_generation: u32,
}

impl View for DisplayState {
    type V = DisplayView;

    closed spec fn view(&self) -> DisplayView {
        DisplayView {
            rotation: self.rotation,
            render_offset: self.render_offset,
            full_refresh_requested: self.full_refresh_requested,
            woke_from_suspend: self.woke_from_suspend,
            sleep_screen: match self.sleep_screen {
                Some(screen) => Some(screen@),
                None => None,
            },
            sleep_background_white: self.sleep_background_white,
            sleep_image_name: self.sleep_image_name@,
            last_activity: self.last_activity,
            screen_width: self.screen_width,
            screen_height: self.screen_height,
            pre_render_generation: self.pre_render_generation,
            stale_generation: self.stale_generation,
        }
    }
}

impl DisplayState {
    #[verifier::type_invariant]
    spec fn inv(self) -> bool {
        self@.wf()
    }

    pub fn new() -> (state: Self)
        ensures
            state@ == DisplayView::initial(),
    {
        DisplayState {
            rotation: 0,
            render_offset: 0,
            full_refresh_requested: false,
            woke_from_suspend: false,
            sleep_screen: None,
            sleep_background_white: true,
            sleep_image_name: String::new(),
            last_activity: 0,
            screen_width: 0,
            screen_height: 0,
            pre_render_generation: 0,
            stale_generation: 0,
        }
    }

    /// Rotation with which the picture is brought to the panel.
    pub fn render_rotation(&self) -> (degrees: u32)
        ensures
            degrees == self@.render_rotation(),
            self@.wf(),
    {
        proof {
            use_type_invariant(self);
        }
        (self.rotation + self.render_offset) % 360
    }

    /// Whether a full refresh was requested since this was last asked.
    pub fn take_full_refresh(&mut self) -> (requested: bool)
        ensures
            requested == old(self)@.full_refresh_requested,
            final(self)@ == (DisplayView { full_refresh_requested: false, ..old(self)@ }),
    {
        proof {
            use_type_invariant(&*self);
        }
        let requested: bool = self.full_refresh_requested;
        self.full_refresh_requested = false;
        requested
    }

    /// Whether the device woke from suspend since this was last asked.
    pub fn take_woke_from_suspend(&mut self) -> (woke: bool)
        ensures
            woke == old(self)@.woke_from_suspend,
            final(self)@ == (DisplayView { woke_from_suspend: false, ..old(self)@ }),
    {
        proof {
            use_type_invariant(&*self);
        }
        let woke: bool = self.woke_from_suspend;
        self.woke_from_suspend = false;
        woke
    }
}

/// Set the fixed render offset for this session.
///
/// Call once at startup with the initial device rotation (0 or 180). On the Oasis, pass 180 if
/// the device was held upside-down at launch, otherwise pass 0.
pub fn set_render_offset(state: &mut DisplayState, initial_rotation: u32)
    ensures
        final(state)@ == (DisplayView {
            render_offset: if initial_rotation == 180 {
                180
            } else {
                0
            },
            ..old(state)@
        }),
{
    proof {
        use_type_invariant(&*state);
    }
    state.render_offset = if initial_rotation == 180 {
        180
    } else {
        0
    };
}

/// Get the fixed render offset for this session.
pub fn get_render_offset(state: &DisplayState) -> (offset: u32)
    ensures
        offset == state@.render_offset,
        offset == 0 || offset == 180,
{
    proof {
        use_type_invariant(state);
    }
    state.render_offset
}

/// Set the screen rotation (0, 90, 180, or 270 degrees).
///
/// Call before the event loop starts, or from the UI thread to rotate at runtime. Triggers a
/// full refresh on the next render cycle.
pub fn set_rotation(state: &mut DisplayState, degrees: u32)
    ensures
        final(state)@ == old(state)@.rotated(degrees),
{
    proof {
        use_type_invariant(&*state);
    }
    let normalized: u32 = degrees % 360;
    state.rotation = normalized;
    state.full_refresh_requested = true;
}

/// Get the current screen rotation in degrees (0, 90, 180, or 270).
pub fn get_rotation(state: &DisplayState) -> (degrees: u32)
    ensures
        degrees == state@.rotation,
        degrees < 360,
{
    proof {
        use_type_invariant(state);
    }
    state.rotation
}

/// Reset the last-activity timestamp to now, the seconds since the Unix epoch; a clock that is
/// set to before the epoch counts as standing at it.
pub fn touch_activity(state: &mut DisplayState, now: Option<u64>)
    ensures
        final(state)@ == (DisplayView {
            last_activity: match now {
                Some(seconds) => seconds as i64,
                None => 0,
            },
            ..old(state)@
        }),
{
    proof {
        use_type_invariant(&*state);
    }
    state.last_activity = match now {
        Some(seconds) => seconds as i64,
        None => 0,
    };
}

/// When the screen was last touched, in seconds since the Unix epoch.
pub fn last_activity(state: &DisplayState) -> (seconds: i64)
    ensures
        seconds == state@.last_activity,
{
    state.last_activity
}

/// Set the sleep screen background colour (true = white, false = black).
pub fn set_sleep_background_white(state: &mut DisplayState, white: bool)
    ensures
        final(state)@ == (DisplayView { sleep_background_white: white, ..old(state)@ }),
{
    proof {
        use_type_invariant(&*state);
    }
    state.sleep_background_white = white;
}

/// Set the specific sleep image filename to use ("default" = generated).
/// Clears the cache, and turns away pre-renders that are still running, so a stale image from a
/// previous selection isn't used.
pub fn set_sleep_image_name(state: &mut DisplayState, name: &str)
    ensures
        final(state)@ == old(state)@.sleep_image_chosen(name@),
{
    proof {
        use_type_invariant(&*state);
    }
    state.sleep_image_name = name.to_owned();
    state.sleep_screen = None;
    state.stale_generation = state.pre_render_generation;
}

/// Cache the screen dimensions. Call once at startup from the UI thread.
pub fn set_screen_dimensions(state: &mut DisplayState, w: u32, h: u32)
    ensures
        final(state)@ == (DisplayView { screen_width: w, screen_height: h, ..old(state)@ }),
{
    proof {
        use_type_invariant(&*state);
    }
    state.screen_width = w;
    state.screen_height = h;
}

/// Request a full-screen refresh on the next render.
pub fn request_full_refresh(state: &mut DisplayState)
    ensures
        final(state)@ == (DisplayView { full_refresh_requested: true, ..old(state)@ }),
{
    proof {
        use_type_invariant(&*state);
    }
    state.full_refresh_requested = true;
}

/// Force the app to re-render and flash the screen to clear the sleep image.
pub fn wake_refresh(state: &mut DisplayState)
    ensures
        final(state)@ == old(state)@.woken(),
{
    request_full_refresh(state);
    proof {
        use_type_invariant(&*state);
    }
    state.woke_from_suspend = true;
}

/// The screen dimensions, if they were cached.
pub fn cached_screen_dimensions(state: &DisplayState) -> (size: Option<(u32, u32)>)
    ensures
        size == state@.known_screen(),
{
    if state.screen_width > 0 && state.screen_height > 0 {
        Some((state.screen_width, state.screen_height))
    } else {
        None
    }
}

/// The screen dimensions: the cached ones, else those of the panel, where it could be opened,
/// else a common panel's.
pub fn screen_dimensions(state: &DisplayState, opened: Option<(u32, u32)>) -> (size: (u32, u32))
    ensures
        size == state@.screen_dimensions(opened),
{
    if let Some(size) = cached_screen_dimensions(state) {
        return size;
    }
    match opened {
        Some(size) => size,
        None => (FALLBACK_WIDTH, FALLBACK_HEIGHT),
    }
}

/// Start a new pre-render, which supersedes those before it.
pub fn new_pre_render_generation(state: &mut DisplayState) -> (generation: u32)
    requires
        old(state)@.pre_render_generation < u32::MAX,
    ensures
        generation == old(state)@.pre_render_generation + 1,
        final(state)@ == old(state)@.pre_render_started(),
        final(state)@.wants(generation),
{
    proof {
        use_type_invariant(&*state);
    }
    let generation: u32 = state.pre_render_generation + 1;
    state.pre_render_generation = generation;
    generation
}

/// Whether no newer pre-render was started.
pub fn is_current_generation(state: &DisplayState, generation: u32) -> (current: bool)
    ensures
        current == (state@.pre_render_generation == generation),
{
    state.pre_render_generation == generation
}

/// Number of the newest pre-render.
pub fn pre_render_generation(state: &DisplayState) -> (generation: u32)
    ensures
        generation == state@.pre_render_generation,
        state@.wf(),
{
    proof {
        use_type_invariant(state);
    }
    state.pre_render_generation
}

/// Whether what a pre-render has to show for itself is still wanted.
pub fn is_wanted_generation(state: &DisplayState, generation: u32) -> (wanted: bool)
    ensures
        wanted == state@.wants(generation),
{
    is_current_generation(state, generation) && state.stale_generation < generation
}

/// Forget the sleep screen that was rendered ahead of time.
pub fn clear_sleep_screen_cache(state: &mut DisplayState)
    ensures
        final(state)@ == old(state)@.sleep_screen_forgotten(),
{
    proof {
        use_type_invariant(&*state);
    }
    state.sleep_screen = None;
}

impl DisplayState {
    /// Keep a sleep screen for the next suspend.
    pub(crate) fn cache_sleep_screen(&mut self, screen: GrayImage)
        ensures
            final(self)@ == (DisplayView { sleep_screen: Some(screen@), ..old(self)@ }),
    {
        proof {
            use_type_invariant(&*self);
        }
        self.sleep_screen = Some(screen);
    }

    /// The sleep screen, if it was rendered ahead of time.
    pub fn sleep_screen(&self) -> (screen: Option<&GrayImage>)
        ensures
            match screen {
                Some(screen) => self@.sleep_screen == Some(screen@),
                None => self@.sleep_screen is None,
            },
    {
        self.sleep_screen.as_ref()
    }

    pub fn sleep_image_name(&self) -> (name: String)
        ensures
            name@ == self@.sleep_image_name,
    {
        self.sleep_image_name.clone()
    }

    /// Level of the pixels around a sleep image that does not fill the screen.
    pub fn sleep_background(&self) -> (level: u8)
        ensures
            level == self@.sleep_background(),
    {
        if self.sleep_background_white {
            255
        } else {
            0
        }
    }
}

/// A rotation of less than a full turn is read back as it was set, full turns more make no
/// difference, and only the last rotation counts.
pub proof fn law_rotation_counts_modulo_full_turn(state: DisplayView, degrees: u32, earlier: u32)
    ensures
        state.rotated(degrees).rotation < 360,
        degrees < 360 ==> state.rotated(degrees).rotation == degrees,
        degrees <= u32::MAX - 360 ==> state.rotated((degrees + 360) as u32) == state.rotated(
            degrees,
        ),
        state.rotated(earlier).rotated(degrees) == state.rotated(degrees),
{
}

/// The render offset never changes whether the picture lies sideways, so the size that is drawn
/// depends on the rotation alone.
pub proof fn law_offset_keeps_orientation(state: DisplayView)
    requires
        state.wf(),
    ensures
        state.render_rotation() < 360,
        crate::rotation::turns_sideways(state.render_rotation())
            == crate::rotation::turns_sideways(state.rotation),
{
}

/// A launch offset of half a turn makes up for a panel that was set up upside down: the panel
/// then shows in each place what it would show, without the offset, in the opposite place. Without
/// an offset, the picture is brought to the panel with the rotation that was set.
pub proof fn law_launch_offset_turns_the_picture_over(
    state: DisplayView,
    width: int,
    height: int,
    x: int,
    y: int,
)
    requires
        state.wf(),
    ensures
        state.render_offset == 0 || state.render_offset == 180,
        state.render_rotation() < 360,
        state.render_offset == 0 ==> state.render_rotation() == state.rotation,
        state.render_offset == 180 ==> state.render_rotation() == state.rotation + 180
            || state.render_rotation() == state.rotation - 180,
        state.render_offset == 180 && (state.rotation == 0 || state.rotation == 90 || state.rotation
            == 180 || state.rotation == 270) ==> crate::rotation::source(
            state.render_rotation(),
            width,
            height,
            width - 1 - x,
            height - 1 - y,
        ) == crate::rotation::source(state.rotation, width, height, x, y),
{
}

/// Before the application has said anything, nothing is to be refreshed, the picture is upright,
/// and of the sleep screen only the white background is settled.
pub proof fn law_start_asks_for_nothing()
    ensures
        ({
            let state = DisplayView::initial();
            &&& state.wf()
            &&& state.rotation == 0
            &&& state.render_offset == 0
            &&& !state.full_refresh_requested
            &&& !state.woke_from_suspend
            &&& state.sleep_screen is None
            &&& state.sleep_background_white
            &&& state.sleep_image_name.len() == 0
            &&& state.last_activity == 0
            &&& state.screen_width == 0
            &&& state.screen_height == 0
            &&& state.pre_render_generation == 0
            &&& state.stale_generation == 0
        }),
{
}

/// What the application sets is set, and everything else stays as it is.
pub proof fn law_settings_touch_nothing_else(state: DisplayView, degrees: u32, name: Seq<char>)
    ensures
        ({
            let rotated = state.rotated(degrees);
            &&& rotated.full_refresh_requested
            &&& state == (DisplayView {
                rotation: state.rotation,
                full_refresh_requested: state.full_refresh_requested,
                ..rotated
            })
        }),
        ({
            let woken = state.woken();
            &&& woken.full_refresh_requested
            &&& woken.woke_from_suspend
            &&& state == (DisplayView {
                full_refresh_requested: state.full_refresh_requested,
                woke_from_suspend: state.woke_from_suspend,
                ..woken
            })
        }),
        ({
            let chosen = state.sleep_image_chosen(name);
            &&& chosen.sleep_image_name == name
            &&& chosen.sleep_screen is None
            &&& chosen.stale_generation == state.pre_render_generation
            &&& state == (DisplayView {
                sleep_image_name: state.sleep_image_name,
                sleep_screen: state.sleep_screen,
                stale_generation: state.stale_generation,
                ..chosen
            })
        }),
        ({
            let forgotten = state.sleep_screen_forgotten();
            &&& forgotten.sleep_screen is None
            &&& state == (DisplayView { sleep_screen: state.sleep_screen, ..forgotten })
        }),
        state.pre_render_generation < u32::MAX ==> ({
            let started = state.pre_render_started();
            &&& started.pre_render_generation == state.pre_render_generation + 1
            &&& state == (DisplayView {
                pre_render_generation: state.pre_render_generation,
                ..started
            })
        }),
{
}

/// A pre-render that was just started is wanted, whatever its number, and stays so until a newer
/// one is started or a sleep image is chosen: no other setting turns it away.
pub proof fn law_only_newer_work_supersedes(state: DisplayView, degrees: u32, name: Seq<char>)
    requires
        state.wf(),
        state.pre_render_generation < u32::MAX - 1,
    ensures
        ({
            let started = state.pre_render_started();
            let generation = (state.pre_render_generation + 1) as u32;
            &&& started.wants(generation)
            &&& started.rotated(degrees).wants(generation)
            &&& started.woken().wants(generation)
            &&& started.sleep_screen_forgotten().wants(generation)
            &&& !started.pre_render_started().wants(generation)
            &&& !started.sleep_image_chosen(name).wants(generation)
            &&& started.sleep_image_chosen(name).pre_render_started().wants(
                (generation + 1) as u32,
            )
        }),
{
}

/// The panel's size is the one that was set, if both its sides were; else that of the panel, if it
/// could be opened; else 1072 by 1448.
pub proof fn law_screen_size_that_was_set_comes_first(
    state: DisplayView,
    opened: Option<(u32, u32)>,
)
    ensures
        ({
            let was_set = state.screen_width != 0 && state.screen_height != 0;
            let (width, height) = state.screen_dimensions(opened);
            &&& was_set <==> state.known_screen() is Some
            &&& was_set ==> state.known_screen() == Some((state.screen_width, state.screen_height))
            &&& was_set ==> width == state.screen_width && height == state.screen_height
            &&& !was_set && opened is Some ==> (width, height) == opened->0
            &&& !was_set && opened is None ==> width == 1072 && height == 1448
        }),
{
}

/// Around a sleep image the screen is pure white or pure black, as the application has chosen.
pub proof fn law_sleep_background_is_white_or_black(state: DisplayView)
    ensures
        state.sleep_background_white ==> state.sleep_background() == 255,
        !state.sleep_background_white ==> state.sleep_background() == 0,
{
}

} // verus!
