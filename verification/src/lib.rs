//! Slint platform backend for Kindles: everything the backend decides and computes.
//!
//! The device itself (framebuffer, touch input, power, the Slint window) is reached from outside
//! of this library: it tells what has happened, and the library answers with what has to be done
//! next and with the pixels to show.
//!
//! - [`state`]: what the application has asked for: rotation, refreshes, the sleep screen.
//! - [`backend`]: black-and-white mode and the wake schedule.
//! - [`platform`]: the event loop, one step at a time.
//! - [`frame`], [`blit`], [`rotation`], [`gray`]: how a rendered picture reaches the panel.
//! - [`sleep`]: the image that stays on the panel while the device sleeps.
//! - [`buttons`]: page-turn buttons.
//! - [`raster`], [`framebuffer`], [`duration`]: pictures, the panel's pixels, spans of time.

pub mod backend;
pub mod blit;
pub mod buttons;
pub mod duration;
pub mod frame;
pub mod framebuffer;
pub mod gray;
pub mod platform;
pub mod raster;
pub mod rotation;
pub mod sleep;
pub mod state;

pub use backend::{KindleBackend, NoSchedule, Scheduled, WakeSchedule};
pub use sleep::{
    begin_preload, preload_default_sleep_screen, preload_sleep_screen_from_image,
    show_sleep_screen,
};
pub use state::{
    clear_sleep_screen_cache, get_render_offset, get_rotation, last_activity,
    new_pre_render_generation, request_full_refresh, set_render_offset, set_rotation,
    set_screen_dimensions, set_sleep_background_white, set_sleep_image_name, wake_refresh,
    DisplayState,
};
