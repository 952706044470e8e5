use slint_backend_kindle::blit::{blit_region, full_reblit, rotate_region};
use slint_backend_kindle::frame::{blank_panel, draw_frame, finish_frame, render_size, Frame, Refresh};
use slint_backend_kindle::framebuffer::Framebuffer;
use slint_backend_kindle::gray::{to_gray, Rgb8Pixel};
use slint_backend_kindle::rotation::{write_row_rotated_range, Region};

fn gray(v: u8) -> Rgb8Pixel {
    Rgb8Pixel { r: v, g: v, b: v }
}

fn picture(levels: &[u8]) -> Vec<Rgb8Pixel> {
    levels.iter().map(|v| gray(*v)).collect()
}

fn frame(rotation: u32, render_w: usize, render_h: usize, full: bool) -> Frame {
    Frame {
        rotation,
        render_w,
        render_h,
        resize: false,
        redraw: false,
        full,
        black_and_white: false,
    }
}

#[test]
fn colours_become_gray_by_weight() {
    assert_eq!(to_gray(Rgb8Pixel { r: 255, g: 0, b: 0 }, false), 76);
    assert_eq!(to_gray(Rgb8Pixel { r: 0, g: 255, b: 0 }, false), 149);
    assert_eq!(to_gray(Rgb8Pixel { r: 0, g: 0, b: 255 }, false), 28);
    assert_eq!(to_gray(Rgb8Pixel { r: 1, g: 2, b: 3 }, false), 1);
    for v in 0..=255 {
        assert_eq!(to_gray(gray(v), false), v);
    }
}

#[test]
fn black_and_white_mode_has_two_levels() {
    assert_eq!(to_gray(gray(127), true), 0);
    assert_eq!(to_gray(gray(128), true), 255);
    for v in 0..=255 {
        let level = to_gray(gray(v), true);
        assert!(level == 0 || level == 255);
    }
}

#[test]
fn a_new_panel_is_white() {
    let mut fb = Framebuffer::new(2, 2);
    assert_eq!(fb.pixels(), &vec![0xff; 4]);
    fb.write_pixel(1, 0, 7);
    fb.write_line(1, 0, &[1, 2]);
    assert_eq!(fb.pixels(), &vec![0xff, 7, 1, 2]);
    assert_eq!((fb.width(), fb.height()), (2, 2));
    fb.fill(9);
    assert_eq!(fb.pixels(), &vec![9; 4]);
    assert!(matches!(blank_panel(&mut fb), Refresh::Full));
    assert_eq!(fb.pixels(), &vec![0xff; 4]);
}

#[test]
fn part_of_a_row_without_rotation() {
    let mut fb = Framebuffer::new(4, 2);
    write_row_rotated_range(&mut fb, 1, 1, &[1, 2], 0);
    assert_eq!(fb.pixels(), &vec![255, 255, 255, 255, 255, 1, 2, 255]);
    let mut odd = Framebuffer::new(4, 2);
    write_row_rotated_range(&mut odd, 1, 1, &[1, 2], 45);
    assert_eq!(odd.pixels(), fb.pixels());
}

#[test]
fn part_of_a_row_upside_down() {
    let mut fb = Framebuffer::new(4, 2);
    write_row_rotated_range(&mut fb, 0, 0, &[1, 2], 180);
    assert_eq!(fb.pixels(), &vec![255, 255, 255, 255, 255, 255, 2, 1]);
}

#[test]
fn a_run_upside_down_that_is_too_wide_starts_at_the_edge() {
    let mut fb = Framebuffer::new(3, 1);
    write_row_rotated_range(&mut fb, 0, 2, &[1, 2], 180);
    assert_eq!(fb.pixels(), &vec![2, 1, 255]);
}

#[test]
fn part_of_a_row_on_its_side() {
    let mut fb = Framebuffer::new(2, 3);
    write_row_rotated_range(&mut fb, 0, 1, &[1, 2], 90);
    assert_eq!(fb.pixels(), &vec![255, 255, 255, 1, 255, 2]);
    let mut fb = Framebuffer::new(2, 3);
    write_row_rotated_range(&mut fb, 0, 1, &[1, 2], 270);
    assert_eq!(fb.pixels(), &vec![2, 255, 1, 255, 255, 255]);
}

#[test]
fn the_whole_picture_in_every_rotation() {
    let upright = picture(&[1, 2, 3, 4, 5, 6]);
    let mut fb = Framebuffer::new(3, 2);
    full_reblit(&mut fb, &upright, false, 0, 3, 2);
    assert_eq!(fb.pixels(), &vec![1, 2, 3, 4, 5, 6]);
    full_reblit(&mut fb, &upright, false, 180, 3, 2);
    assert_eq!(fb.pixels(), &vec![6, 5, 4, 3, 2, 1]);
    full_reblit(&mut fb, &upright, false, 90, 2, 3);
    assert_eq!(fb.pixels(), &vec![5, 3, 1, 6, 4, 2]);
    full_reblit(&mut fb, &upright, false, 270, 2, 3);
    assert_eq!(fb.pixels(), &vec![2, 4, 6, 1, 3, 5]);
}

#[test]
fn the_whole_picture_in_black_and_white() {
    let mut fb = Framebuffer::new(2, 1);
    full_reblit(&mut fb, &picture(&[100, 200]), true, 0, 2, 1);
    assert_eq!(fb.pixels(), &vec![0, 255]);
}

#[test]
fn half_a_turn_more_shows_the_picture_upside_down() {
    let upright = picture(&[1, 2, 3, 4, 5, 6]);
    for (rotation, w, h) in [(0, 3, 2), (90, 2, 3), (180, 3, 2), (270, 2, 3)] {
        let mut a = Framebuffer::new(3, 2);
        let mut b = Framebuffer::new(3, 2);
        full_reblit(&mut a, &upright, false, rotation, w, h);
        full_reblit(&mut b, &upright, false, (rotation + 180) % 360, w, h);
        let mut turned = b.pixels().clone();
        turned.reverse();
        assert_eq!(a.pixels(), &turned);
    }
}

#[test]
fn one_rectangle_leaves_the_rest_alone() {
    let mut fb = Framebuffer::new(3, 3);
    let rgb = picture(&[1, 2, 3, 4, 5, 6, 7, 8, 9]);
    let region = Region { x: 1, y: 1, width: 2, height: 1 };
    blit_region(&mut fb, &rgb, 3, region, false, 90);
    assert_eq!(fb.pixels(), &vec![255, 255, 255, 255, 5, 255, 255, 6, 255]);
}

#[test]
fn the_refreshed_region_is_where_the_pixels_changed() {
    for (rotation, w, h) in [(0, 5, 4), (90, 4, 5), (180, 5, 4), (270, 4, 5), (45, 5, 4)] {
        let rgb = picture(&[0; 20]);
        let dirty = Region { x: 1, y: 2, width: 2, height: 1 };
        let mut fb = Framebuffer::new(5, 4);
        blit_region(&mut fb, &rgb, w, dirty, false, rotation);
        let region = rotate_region(rotation, 5, 4, dirty);
        assert_eq!(render_size(rotation, 5, 4), (w, h));
        for y in 0..4 {
            for x in 0..5 {
                let inside = region.x <= x
                    && x < region.x + region.width
                    && region.y <= y
                    && y < region.y + region.height;
                assert_eq!(fb.pixels()[y * 5 + x] == 0, inside);
            }
        }
    }
}

#[test]
fn refreshed_regions_have_exact_places() {
    let dirty = Region { x: 1, y: 2, width: 3, height: 1 };
    let place = |r: Region| (r.x, r.y, r.width, r.height);
    assert_eq!(place(rotate_region(0, 10, 20, dirty)), (1, 2, 3, 1));
    assert_eq!(place(rotate_region(180, 10, 20, dirty)), (6, 17, 3, 1));
    assert_eq!(place(rotate_region(90, 10, 20, dirty)), (7, 1, 1, 3));
    assert_eq!(place(rotate_region(270, 10, 20, dirty)), (2, 16, 1, 3));
}

#[test]
fn a_frame_refreshes_what_was_rendered() {
    let mut fb = Framebuffer::new(2, 2);
    let rgb = picture(&[1, 2, 3, 4]);
    let dirty = Region { x: 1, y: 0, width: 1, height: 1 };
    match draw_frame(&mut fb, &rgb, frame(180, 2, 2, false), dirty) {
        Some(Refresh::Region(r)) => assert_eq!((r.x, r.y, r.width, r.height), (0, 1, 1, 1)),
        _ => panic!("a region is refreshed"),
    }
    assert_eq!(fb.pixels(), &vec![255, 255, 2, 255]);
    assert!(finish_frame(&mut fb, &rgb, frame(180, 2, 2, false)).is_none());
    assert_eq!(fb.pixels(), &vec![255, 255, 2, 255]);
}

#[test]
fn a_full_frame_replaces_the_whole_panel() {
    let mut fb = Framebuffer::new(2, 2);
    let rgb = picture(&[1, 2, 3, 4]);
    let dirty = Region { x: 1, y: 0, width: 1, height: 1 };
    let refresh = draw_frame(&mut fb, &rgb, frame(0, 2, 2, true), dirty);
    assert!(matches!(refresh, Some(Refresh::Full)));
    let refresh = finish_frame(&mut fb, &rgb, frame(0, 2, 2, true));
    assert!(matches!(refresh, Some(Refresh::Full)));
    assert_eq!(fb.pixels(), &vec![1, 2, 3, 4]);
}

#[test]
fn a_frame_without_changes_refreshes_nothing() {
    let mut fb = Framebuffer::new(2, 2);
    let rgb = picture(&[1, 2, 3, 4]);
    for (width, height) in [(0, 2), (2, 0), (0, 0)] {
        let dirty = Region { x: 0, y: 0, width, height };
        assert!(draw_frame(&mut fb, &rgb, frame(0, 2, 2, true), dirty).is_none());
    }
    assert_eq!(fb.pixels(), &vec![255; 4]);
}

#[test]
fn drawing_what_changed_is_enough() {
    let mut fb = Framebuffer::new(2, 3);
    let mut rgb = picture(&[1, 2, 3, 4, 5, 6]);
    finish_frame(&mut fb, &rgb, frame(90, 3, 2, true));
    rgb[4] = gray(50);
    let dirty = Region { x: 1, y: 1, width: 1, height: 1 };
    draw_frame(&mut fb, &rgb, frame(90, 3, 2, false), dirty);
    let mut whole = Framebuffer::new(2, 3);
    finish_frame(&mut whole, &rgb, frame(90, 3, 2, true));
    assert_eq!(fb.pixels(), whole.pixels());
}
