use slint_backend_kindle::framebuffer::Framebuffer;
use slint_backend_kindle::raster::GrayImage;
use slint_backend_kindle::sleep::{
    can_fit, fit_to_screen, generate_default_sleep_image, place_on_screen, SkyPixel, SleepAction,
    SleepEvent,
};
use slint_backend_kindle::{
    begin_preload, clear_sleep_screen_cache, preload_default_sleep_screen,
    preload_sleep_screen_from_image, set_screen_dimensions, set_sleep_background_white,
    set_sleep_image_name, show_sleep_screen, DisplayState,
};

fn image(width: u32, height: u32, pixels: &[u8]) -> GrayImage {
    GrayImage::from_raw(width, height, pixels.to_vec()).unwrap()
}

#[test]
fn images_hold_their_pixels_row_after_row() {
    let mut img = image(3, 2, &[1, 2, 3, 4, 5, 6]);
    assert_eq!((img.width(), img.height()), (3, 2));
    assert_eq!(img.get_pixel(2, 0), 3);
    assert_eq!(img.get_pixel(0, 1), 4);
    img.put_pixel(1, 1, 9);
    assert_eq!(img.as_raw(), &vec![1, 2, 3, 4, 9, 6]);
    assert_eq!(img.clone().as_raw(), img.as_raw());
    assert!(GrayImage::from_raw(3, 2, vec![0; 5]).is_none());
    assert!(GrayImage::from_raw(3, 2, vec![0; 7]).is_none());
}

#[test]
fn an_image_of_the_screen_size_is_not_touched() {
    let img = image(2, 2, &[1, 2, 3, 4]);
    assert!(can_fit(&img, 2, 2, 9, 9));
    let fitted = fit_to_screen(&img, 2, 2, 255, 9, 9);
    assert_eq!(fitted.as_raw(), img.as_raw());
}

#[test]
fn an_image_is_enlarged_and_centred() {
    let img = image(2, 2, &[10, 20, 30, 40]);
    assert!(can_fit(&img, 7, 4, 4, 4));
    let fitted = fit_to_screen(&img, 7, 4, 255, 4, 4);
    assert_eq!((fitted.width(), fitted.height()), (7, 4));
    assert_eq!(
        fitted.as_raw(),
        &vec![
            255, 10, 10, 20, 20, 255, 255,
            255, 10, 10, 20, 20, 255, 255,
            255, 30, 30, 40, 40, 255, 255,
            255, 30, 30, 40, 40, 255, 255,
        ]
    );
}

#[test]
fn an_image_that_need_not_be_scaled_is_only_centred() {
    let img = image(2, 1, &[10, 20]);
    let fitted = fit_to_screen(&img, 2, 3, 99, 2, 1);
    assert_eq!(fitted.as_raw(), &vec![99, 99, 10, 20, 99, 99]);
}

#[test]
fn an_image_is_reduced_to_some_of_its_pixels() {
    let img = image(4, 2, &[1, 2, 3, 4, 5, 6, 7, 8]);
    let fitted = fit_to_screen(&img, 2, 3, 0, 2, 1);
    assert_eq!(fitted.as_raw(), &vec![0, 0, 6, 8, 0, 0]);
}

#[test]
fn an_empty_image_gives_a_black_spot() {
    let img = image(0, 5, &[]);
    assert!(can_fit(&img, 3, 1, 1, 1));
    let fitted = fit_to_screen(&img, 3, 1, 255, 1, 1);
    assert_eq!(fitted.as_raw(), &vec![255, 0, 255]);
}

#[test]
fn fitting_twice_changes_nothing() {
    let img = image(1, 1, &[77]);
    let once = fit_to_screen(&img, 5, 3, 255, 3, 3);
    let twice = fit_to_screen(&once, 5, 3, 0, 1, 1);
    assert_eq!(once.as_raw(), twice.as_raw());
}

#[test]
fn an_image_larger_than_the_screen_does_not_fit() {
    let img = image(1, 1, &[77]);
    assert!(!can_fit(&img, 5, 3, 6, 3));
    assert!(!can_fit(&img, 5, 3, 5, 4));
    assert!(can_fit(&img, 5, 3, 5, 3));
    assert!(!can_fit(&img, u32::MAX, u32::MAX, 1, 1));
}

#[test]
fn placing_leaves_the_odd_pixel_right_and_below() {
    let screen = place_on_screen(&[1], 4, 2, 9, 1, 1);
    assert_eq!(screen.as_raw(), &vec![9, 1, 9, 9, 9, 9, 9, 9]);
}

#[test]
fn the_default_image_shows_crescent_and_stars() {
    let sky = [
        SkyPixel { in_moon: true, in_cutout: false, in_star: false },
        SkyPixel { in_moon: true, in_cutout: true, in_star: false },
        SkyPixel { in_moon: true, in_cutout: true, in_star: true },
        SkyPixel { in_moon: false, in_cutout: false, in_star: true },
        SkyPixel { in_moon: false, in_cutout: true, in_star: false },
        SkyPixel { in_moon: false, in_cutout: false, in_star: false },
    ];
    let img = generate_default_sleep_image(3, 2, &sky);
    assert_eq!(img.as_raw(), &vec![255, 0, 255, 255, 0, 0]);
}

#[test]
fn a_preloaded_image_is_shown_at_once() {
    let mut state = DisplayState::new();
    set_sleep_background_white(&mut state, false);
    let ticket = begin_preload(&mut state, Some((3, 1)));
    assert_eq!((ticket.generation, ticket.width, ticket.height, ticket.background), (1, 3, 1, 0));
    let img = image(1, 1, &[200]);
    assert!(preload_sleep_screen_from_image(&mut state, ticket, &img, 1, 1));
    let mut fb = Framebuffer::new(3, 1);
    let action = show_sleep_screen(&mut state, &mut fb, SleepEvent::Opened);
    assert!(matches!(action, SleepAction::Refresh));
    assert_eq!(fb.pixels(), &vec![0, 200, 0]);
}

#[test]
fn a_superseded_preload_is_discarded() {
    let mut state = DisplayState::new();
    let first = begin_preload(&mut state, Some((1, 1)));
    let second = begin_preload(&mut state, Some((1, 1)));
    assert!(preload_sleep_screen_from_image(&mut state, second, &image(1, 1, &[2]), 1, 1));
    assert!(!preload_sleep_screen_from_image(&mut state, first, &image(1, 1, &[1]), 1, 1));
    assert_eq!(state.sleep_screen().unwrap().as_raw(), &vec![2]);
}

#[test]
fn a_superseded_preload_is_discarded_even_if_it_is_done_first() {
    let mut state = DisplayState::new();
    let first = begin_preload(&mut state, Some((1, 1)));
    let second = begin_preload(&mut state, Some((1, 1)));
    assert!(!preload_sleep_screen_from_image(&mut state, first, &image(1, 1, &[1]), 1, 1));
    assert!(state.sleep_screen().is_none());
    assert!(preload_sleep_screen_from_image(&mut state, second, &image(1, 1, &[2]), 1, 1));
    assert_eq!(state.sleep_screen().unwrap().as_raw(), &vec![2]);
}

#[test]
fn choosing_an_image_turns_away_running_preloads() {
    let mut state = DisplayState::new();
    let early = begin_preload(&mut state, Some((1, 1)));
    set_sleep_image_name(&mut state, "owl.png");
    assert!(!preload_sleep_screen_from_image(&mut state, early, &image(1, 1, &[1]), 1, 1));
    assert!(state.sleep_screen().is_none());
    let sky = [SkyPixel { in_moon: false, in_cutout: false, in_star: true }];
    assert!(!preload_default_sleep_screen(&mut state, early, &sky));
    assert!(state.sleep_screen().is_none());
    let late = begin_preload(&mut state, Some((1, 1)));
    assert!(preload_sleep_screen_from_image(&mut state, late, &image(1, 1, &[2]), 1, 1));
    assert_eq!(state.sleep_screen().unwrap().as_raw(), &vec![2]);
}

#[test]
fn a_superseded_preload_need_not_fit() {
    let mut state = DisplayState::new();
    let first = begin_preload(&mut state, Some((1, 1)));
    begin_preload(&mut state, Some((1, 1)));
    assert!(!preload_sleep_screen_from_image(&mut state, first, &image(2, 2, &[1; 4]), 2, 2));
    assert!(!preload_default_sleep_screen(&mut state, first, &[]));
    assert!(state.sleep_screen().is_none());
}

#[test]
fn the_default_screen_can_be_preloaded() {
    let mut state = DisplayState::new();
    set_screen_dimensions(&mut state, 2, 1);
    let ticket = begin_preload(&mut state, None);
    let sky = [
        SkyPixel { in_moon: false, in_cutout: false, in_star: true },
        SkyPixel { in_moon: false, in_cutout: false, in_star: false },
    ];
    assert!(preload_default_sleep_screen(&mut state, ticket, &sky));
    assert_eq!(state.sleep_screen().unwrap().as_raw(), &vec![255, 0]);
    let stale = ticket;
    begin_preload(&mut state, None);
    clear_sleep_screen_cache(&mut state);
    assert!(!preload_default_sleep_screen(&mut state, stale, &sky));
    assert!(state.sleep_screen().is_none());
}

#[test]
fn a_preloaded_image_of_another_size_is_not_shown() {
    let mut state = DisplayState::new();
    let ticket = begin_preload(&mut state, Some((1, 1)));
    preload_sleep_screen_from_image(&mut state, ticket, &image(1, 1, &[5]), 1, 1);
    let mut fb = Framebuffer::new(2, 1);
    let action = show_sleep_screen(&mut state, &mut fb, SleepEvent::Opened);
    assert!(matches!(action, SleepAction::Generate));
    assert_eq!(fb.pixels(), &vec![255, 255]);
}

#[test]
fn choosing_an_image_forgets_the_preloaded_one() {
    let mut state = DisplayState::new();
    let ticket = begin_preload(&mut state, Some((1, 1)));
    preload_sleep_screen_from_image(&mut state, ticket, &image(1, 1, &[5]), 1, 1);
    set_sleep_image_name(&mut state, "owl.png");
    let mut fb = Framebuffer::new(1, 1);
    match show_sleep_screen(&mut state, &mut fb, SleepEvent::Opened) {
        SleepAction::Locate(name) => assert_eq!(name, "owl.png"),
        _ => panic!("the selected image is looked for"),
    }
}

#[test]
fn an_image_that_is_found_is_decoded() {
    let mut state = DisplayState::new();
    let mut fb = Framebuffer::new(2, 2);
    let found = SleepEvent::Located { name: "owl.png".to_string(), found: true };
    match show_sleep_screen(&mut state, &mut fb, found) {
        SleepAction::Decode(name) => assert_eq!(name, "owl.png"),
        _ => panic!("the image is decoded"),
    }
    let missing = SleepEvent::Located { name: "owl.png".to_string(), found: false };
    assert!(matches!(show_sleep_screen(&mut state, &mut fb, missing), SleepAction::Generate));
    let failed = SleepEvent::DecodeFailed;
    assert!(matches!(show_sleep_screen(&mut state, &mut fb, failed), SleepAction::Generate));
}

#[test]
fn the_name_default_stands_for_the_default_image() {
    let mut state = DisplayState::new();
    let mut fb = Framebuffer::new(2, 2);
    for name in ["", "default"] {
        set_sleep_image_name(&mut state, name);
        let action = show_sleep_screen(&mut state, &mut fb, SleepEvent::Opened);
        assert!(matches!(action, SleepAction::Generate));
    }
    set_sleep_image_name(&mut state, "Default");
    let action = show_sleep_screen(&mut state, &mut fb, SleepEvent::Opened);
    assert!(matches!(action, SleepAction::Locate(_)));
}

#[test]
fn showing_remembers_the_size_of_the_panel() {
    let mut state = DisplayState::new();
    let mut fb = Framebuffer::new(4, 3);
    show_sleep_screen(&mut state, &mut fb, SleepEvent::Opened);
    let ticket = begin_preload(&mut state, Some((9, 9)));
    assert_eq!((ticket.width, ticket.height), (4, 3));
}

#[test]
fn preloading_does_not_change_the_picture() {
    let img = image(2, 1, &[10, 20]);
    let mut state = DisplayState::new();
    let mut fresh = Framebuffer::new(4, 4);
    let ready = SleepEvent::Ready { img: &img, new_w: 4, new_h: 2 };
    assert!(matches!(show_sleep_screen(&mut state, &mut fresh, ready), SleepAction::Refresh));
    let ticket = begin_preload(&mut state, Some((4, 4)));
    assert!(preload_sleep_screen_from_image(&mut state, ticket, &img, 4, 2));
    let mut cached = Framebuffer::new(4, 4);
    show_sleep_screen(&mut state, &mut cached, SleepEvent::Opened);
    assert_eq!(fresh.pixels(), cached.pixels());
    assert_eq!(
        fresh.pixels(),
        &vec![
            255, 255, 255, 255,
            10, 10, 20, 20,
            10, 10, 20, 20,
            255, 255, 255, 255,
        ]
    );
}
