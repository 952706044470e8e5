use slint_backend_kindle::state::{
    cached_screen_dimensions, is_current_generation, is_wanted_generation, pre_render_generation,
    screen_dimensions, touch_activity, FALLBACK_HEIGHT, FALLBACK_WIDTH,
};
use slint_backend_kindle::{
    clear_sleep_screen_cache, get_render_offset, get_rotation, last_activity,
    new_pre_render_generation, request_full_refresh, set_render_offset, set_rotation,
    set_screen_dimensions, set_sleep_background_white, set_sleep_image_name, wake_refresh,
    DisplayState,
};

#[test]
fn rotation_is_normalized_and_read_back() {
    let mut state = DisplayState::new();
    assert_eq!(get_rotation(&state), 0);
    for degrees in [0, 90, 180, 270] {
        set_rotation(&mut state, degrees);
        assert_eq!(get_rotation(&state), degrees);
    }
    set_rotation(&mut state, 450);
    assert_eq!(get_rotation(&state), 90);
    set_rotation(&mut state, 360);
    assert_eq!(get_rotation(&state), 0);
}

#[test]
fn rotation_requests_a_full_refresh_once() {
    let mut state = DisplayState::new();
    assert!(!state.take_full_refresh());
    set_rotation(&mut state, 180);
    assert!(state.take_full_refresh());
    assert!(!state.take_full_refresh());
}

#[test]
fn render_offset_is_zero_or_half_a_turn() {
    let mut state = DisplayState::new();
    set_render_offset(&mut state, 180);
    assert_eq!(get_render_offset(&state), 180);
    set_render_offset(&mut state, 90);
    assert_eq!(get_render_offset(&state), 0);
    set_render_offset(&mut state, 540);
    assert_eq!(get_render_offset(&state), 0);
}

#[test]
fn render_rotation_adds_the_offset() {
    let mut state = DisplayState::new();
    set_rotation(&mut state, 270);
    assert_eq!(state.render_rotation(), 270);
    set_render_offset(&mut state, 180);
    assert_eq!(state.render_rotation(), 90);
    set_rotation(&mut state, 0);
    assert_eq!(state.render_rotation(), 180);
}

#[test]
fn refresh_requests_are_taken_once() {
    let mut state = DisplayState::new();
    request_full_refresh(&mut state);
    assert!(!state.take_woke_from_suspend());
    assert!(state.take_full_refresh());
    assert!(!state.take_full_refresh());
    wake_refresh(&mut state);
    assert!(state.take_full_refresh());
    assert!(state.take_woke_from_suspend());
    assert!(!state.take_woke_from_suspend());
}

#[test]
fn activity_is_the_time_of_the_last_touch() {
    let mut state = DisplayState::new();
    assert_eq!(last_activity(&state), 0);
    touch_activity(&mut state, Some(1_700_000_000));
    assert_eq!(last_activity(&state), 1_700_000_000);
    touch_activity(&mut state, None);
    assert_eq!(last_activity(&state), 0);
    touch_activity(&mut state, Some(u64::MAX));
    assert_eq!(last_activity(&state), -1);
}

#[test]
fn screen_dimensions_prefer_what_was_set() {
    let mut state = DisplayState::new();
    assert_eq!(cached_screen_dimensions(&state), None);
    assert_eq!(screen_dimensions(&state, None), (1072, 1448));
    assert_eq!((FALLBACK_WIDTH, FALLBACK_HEIGHT), (1072, 1448));
    assert_eq!(screen_dimensions(&state, Some((758, 1024))), (758, 1024));
    set_screen_dimensions(&mut state, 1264, 1680);
    assert_eq!(cached_screen_dimensions(&state), Some((1264, 1680)));
    assert_eq!(screen_dimensions(&state, Some((758, 1024))), (1264, 1680));
}

#[test]
fn half_set_screen_dimensions_do_not_count() {
    let mut state = DisplayState::new();
    set_screen_dimensions(&mut state, 1264, 0);
    assert_eq!(screen_dimensions(&state, Some((758, 1024))), (758, 1024));
    set_screen_dimensions(&mut state, 0, 1680);
    assert_eq!(screen_dimensions(&state, None), (1072, 1448));
}

#[test]
fn generations_supersede_each_other() {
    let mut state = DisplayState::new();
    assert_eq!(pre_render_generation(&state), 0);
    let first = new_pre_render_generation(&mut state);
    assert_eq!(first, 1);
    assert!(is_current_generation(&state, first));
    let second = new_pre_render_generation(&mut state);
    assert_eq!(second, 2);
    assert!(!is_current_generation(&state, first));
    assert!(is_current_generation(&state, second));
    assert!(!is_wanted_generation(&state, first));
    assert!(is_wanted_generation(&state, second));
    set_sleep_image_name(&mut state, "owl.png");
    assert!(is_current_generation(&state, second));
    assert!(!is_wanted_generation(&state, second));
    let third = new_pre_render_generation(&mut state);
    assert!(is_wanted_generation(&state, third));
}

#[test]
fn sleep_settings_are_kept() {
    let mut state = DisplayState::new();
    assert_eq!(state.sleep_background(), 255);
    set_sleep_background_white(&mut state, false);
    assert_eq!(state.sleep_background(), 0);
    assert_eq!(state.sleep_image_name(), "");
    set_sleep_image_name(&mut state, "moon.png");
    assert_eq!(state.sleep_image_name(), "moon.png");
    clear_sleep_screen_cache(&mut state);
    assert!(state.sleep_screen().is_none());
    assert_eq!(state.sleep_image_name(), "moon.png");
}
