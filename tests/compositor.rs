use luminix::compositor::{can_composite, composite, letterbox, resample};
use luminix::geometry::{fit, Size};
use luminix::pan::{pan, PanState};
use luminix::raster::{remap, Axis, Raster};
use luminix::zoom::{zoom, ZoomLevel, MAX_ZOOM};

fn size(width: u32, height: u32) -> Size {
    Size { width, height }
}

/// A raster whose pixel at (x, y) is (x, y, 7, 255).
fn gradient(width: u32, height: u32) -> Raster {
    let mut data = Vec::new();
    for y in 0..height {
        for x in 0..width {
            data.extend_from_slice(&[x as u8, y as u8, 7, 255]);
        }
    }
    Raster::new(width, height, data).unwrap()
}

fn pixel(r: &Raster, x: u32, y: u32) -> [u8; 4] {
    let i = ((y * r.width() + x) * 4) as usize;
    let d = r.data();
    [d[i], d[i + 1], d[i + 2], d[i + 3]]
}

const CLEAR: [u8; 4] = [0, 0, 0, 0];

#[test]
fn raster_rejects_wrong_length() {
    assert!(Raster::new(2, 2, vec![0; 15]).is_none());
    assert!(Raster::new(2, 2, vec![0; 16]).is_some());
    assert!(Raster::new(0, 5, vec![]).is_some());
}

#[test]
fn fit_square_in_square_is_window() {
    assert_eq!(fit(size(300, 300), size(64, 64)), size(300, 300));
}

#[test]
fn fit_wide_image_reaches_width() {
    assert_eq!(fit(size(101, 101), size(100, 50)), size(101, 50));
    assert_eq!(fit(size(640, 480), size(1920, 1080)), size(640, 360));
}

#[test]
fn fit_tall_image_reaches_height() {
    assert_eq!(fit(size(200, 100), size(50, 100)), size(50, 100));
    // 100 * 3 / 7 = 42.86, truncated
    assert_eq!(fit(size(500, 100), size(3, 7)), size(42, 100));
}

#[test]
fn fit_degenerate_image_gives_window() {
    assert_eq!(fit(size(80, 60), size(0, 10)), size(80, 60));
    assert_eq!(fit(size(80, 60), size(10, 0)), size(80, 60));
}

#[test]
fn fit_falls_back_when_side_truncates_to_zero() {
    assert_eq!(fit(size(10, 10), size(1, 1000)), size(10, 10));
    assert_eq!(fit(size(10, 10), size(1000, 1)), size(10, 10));
}

#[test]
fn fit_preserves_aspect_on_samples() {
    for &(ww, wh, iw, ih) in &[(101u32, 101u32, 100u32, 50u32), (1280, 720, 333, 777), (7, 900, 16, 9)] {
        let r = fit(size(ww, wh), size(iw, ih));
        assert!(r.width <= ww && r.height <= wh);
        assert!(r.width == ww || r.height == wh);
        if r.height == wh {
            let err = iw as f64 / ih as f64 - r.width as f64 / r.height as f64;
            assert!(err >= 0.0 && err < 1.0 / r.height as f64);
        } else {
            let err = ih as f64 / iw as f64 - r.height as f64 / r.width as f64;
            assert!(err >= 0.0 && err < 1.0 / r.width as f64);
        }
    }
}

#[test]
fn pan_zero_is_identity() {
    let img = gradient(5, 4);
    let out = pan(&img, &PanState::new());
    assert_eq!(out.width(), 5);
    assert_eq!(out.height(), 4);
    assert_eq!(out.data(), img.data());
}

#[test]
fn pan_positive_pads_leading_edge() {
    let img = gradient(4, 3);
    let state = PanState { offset_x: 1, offset_y: 2, panning: false };
    let out = pan(&img, &state);
    assert_eq!((out.width(), out.height()), (4, 3));
    assert_eq!(pixel(&out, 0, 2), CLEAR);
    assert_eq!(pixel(&out, 1, 1), CLEAR);
    assert_eq!(pixel(&out, 1, 2), [0, 0, 7, 255]);
    assert_eq!(pixel(&out, 3, 2), [2, 0, 7, 255]);
}

#[test]
fn pan_negative_pads_trailing_edge() {
    let img = gradient(4, 3);
    let state = PanState { offset_x: -1, offset_y: -1, panning: false };
    let out = pan(&img, &state);
    assert_eq!((out.width(), out.height()), (4, 3));
    assert_eq!(pixel(&out, 0, 0), [1, 1, 7, 255]);
    assert_eq!(pixel(&out, 2, 1), [3, 2, 7, 255]);
    assert_eq!(pixel(&out, 3, 0), CLEAR);
    assert_eq!(pixel(&out, 0, 2), CLEAR);
}

#[test]
fn pan_keeps_dimensions_for_any_offset() {
    let img = gradient(6, 5);
    for &(ox, oy) in &[(5i64, -4i64), (-5, 4), (3, 0), (0, -2)] {
        let out = pan(&img, &PanState { offset_x: ox, offset_y: oy, panning: true });
        assert_eq!((out.width(), out.height()), (6, 5));
        assert_eq!(out.data().len(), 6 * 5 * 4);
    }
}

#[test]
fn pan_move_rejected_at_boundary() {
    let image = size(10, 8);
    let mut state = PanState { offset_x: 9, offset_y: 0, panning: true };
    state.try_move(1, 0, image);
    assert_eq!(state.offset_x, 9);
    state.try_move(-19, 7, image);
    assert_eq!(state.offset_x, 9);
    assert_eq!(state.offset_y, 7);
    state.try_move(-18, 1, image);
    assert_eq!(state.offset_x, -9);
    assert_eq!(state.offset_y, 7);
}

#[test]
fn pan_follows_cursor_only_while_panning() {
    let window = size(100, 100);
    let image = size(50, 50);
    let mut state = PanState::new();
    assert!(!state.on_cursor_moved(40, 60, window, image));
    assert_eq!((state.offset_x, state.offset_y), (0, 0));
    state.start();
    assert!(state.on_cursor_moved(40, 60, window, image));
    assert_eq!((state.offset_x, state.offset_y), (10, -10));
    state.stop();
    assert!(!state.on_cursor_moved(0, 0, window, image));
    assert_eq!((state.offset_x, state.offset_y), (10, -10));
}

#[test]
fn zoom_zero_is_identity() {
    let img = gradient(7, 3);
    let out = zoom(&img, 0);
    assert_eq!((out.width(), out.height()), (7, 3));
    assert_eq!(out.data(), img.data());
}

#[test]
fn zoom_in_crops_symmetrically() {
    let img = gradient(20, 30);
    // unit 2, margin 1 * 2 / 2 = 1
    let out = zoom(&img, 1);
    assert_eq!((out.width(), out.height()), (18, 28));
    assert_eq!(pixel(&out, 0, 0), [1, 1, 7, 255]);
    let out = zoom(&img, 3);
    // margin 3 * 2 / 2 = 3
    assert_eq!((out.width(), out.height()), (14, 24));
    assert_eq!(pixel(&out, 0, 0), [3, 3, 7, 255]);
}

#[test]
fn zoom_in_clamps_to_one_pixel() {
    let img = gradient(20, 20);
    let out = zoom(&img, 100);
    assert_eq!((out.width(), out.height()), (1, 1));
    assert_eq!(pixel(&out, 0, 0), [9, 9, 7, 255]);
}

#[test]
fn zoom_out_pads_symmetrically() {
    let img = gradient(20, 30);
    let out = zoom(&img, -2);
    // margin 2 * 2 / 2 = 2
    assert_eq!((out.width(), out.height()), (24, 34));
    assert_eq!(pixel(&out, 1, 1), CLEAR);
    assert_eq!(pixel(&out, 2, 2), [0, 0, 7, 255]);
    assert_eq!(pixel(&out, 21, 31), [19, 29, 7, 255]);
    assert_eq!(pixel(&out, 22, 31), CLEAR);
}

#[test]
fn zoom_small_image_has_no_unit() {
    let img = gradient(9, 40);
    assert_eq!(zoom(&img, 5).data(), img.data());
    assert_eq!(zoom(&img, -5).data(), img.data());
}

#[test]
fn zoom_monotone_in_level() {
    let img = gradient(40, 30);
    let mut last_area = u64::MAX;
    for level in 1..=20 {
        let out = zoom(&img, level);
        let area = out.width() as u64 * out.height() as u64;
        assert!(area <= last_area);
        last_area = area;
    }
    let mut last_pad = 0u64;
    for level in 1..=10 {
        let out = zoom(&img, -level);
        let pad = out.width() as u64 * out.height() as u64 - 40 * 30;
        assert!(pad > last_pad);
        last_pad = pad;
    }
}

#[test]
fn zoom_level_scroll_clamps() {
    let mut z = ZoomLevel::new();
    assert_eq!(z.level(), 0);
    z.scroll(true);
    assert_eq!(z.level(), 1);
    z.scroll(false);
    z.scroll(false);
    assert_eq!(z.level(), -1);
    let mut top = ZoomLevel::from_level(MAX_ZOOM).unwrap();
    top.scroll(true);
    assert_eq!(top.level(), MAX_ZOOM);
    let mut bottom = ZoomLevel::from_level(-MAX_ZOOM).unwrap();
    bottom.scroll(false);
    assert_eq!(bottom.level(), -MAX_ZOOM);
    assert!(ZoomLevel::from_level(MAX_ZOOM + 1).is_none());
}

#[test]
fn resample_nearest_neighbour() {
    let img = gradient(2, 1);
    let out = resample(&img, size(4, 2));
    assert_eq!((out.width(), out.height()), (4, 2));
    for y in 0..2 {
        assert_eq!(pixel(&out, 0, y)[0], 0);
        assert_eq!(pixel(&out, 1, y)[0], 0);
        assert_eq!(pixel(&out, 2, y)[0], 1);
        assert_eq!(pixel(&out, 3, y)[0], 1);
    }
    let down = resample(&gradient(9, 1), size(3, 1));
    assert_eq!([pixel(&down, 0, 0)[0], pixel(&down, 1, 0)[0], pixel(&down, 2, 0)[0]], [1, 4, 7]);
}

#[test]
fn letterbox_odd_padding_goes_left_and_top() {
    let img = gradient(1, 1);
    let out = letterbox(&img, size(4, 3));
    assert_eq!((out.width(), out.height()), (4, 3));
    for y in 0..3 {
        for x in 0..4 {
            let want = if (x, y) == (2, 1) { [0, 0, 7, 255] } else { CLEAR };
            assert_eq!(pixel(&out, x, y), want);
        }
    }
}

#[test]
fn composite_letterbox_centering() {
    let img = gradient(100, 50);
    let out = composite(&img, size(101, 101), &PanState::new(), ZoomLevel::new()).unwrap();
    assert_eq!((out.width(), out.height()), (101, 101));
    assert_eq!(out.data().len(), 101 * 101 * 4);
    for y in 0..101 {
        for x in 0..101 {
            let p = pixel(&out, x, y);
            if y < 26 || y >= 76 {
                assert_eq!(p, CLEAR, "({x}, {y})");
            } else {
                assert_eq!(p[3], 255, "({x}, {y})");
            }
        }
    }
}

#[test]
fn composite_degenerate_window_is_none() {
    let img = gradient(10, 10);
    assert!(composite(&img, size(0, 0), &PanState::new(), ZoomLevel::new()).is_none());
    assert!(composite(&img, size(0, 7), &PanState::new(), ZoomLevel::new()).is_none());
    assert!(composite(&img, size(7, 0), &PanState::new(), ZoomLevel::new()).is_none());
}

#[test]
fn composite_fills_window_exactly() {
    let img = gradient(20, 20);
    let out = composite(&img, size(20, 20), &PanState::new(), ZoomLevel::new()).unwrap();
    assert_eq!(out.data(), img.data());
    let mut z = ZoomLevel::new();
    z.scroll(false);
    let state = PanState { offset_x: 3, offset_y: 0, panning: false };
    let out = composite(&img, size(30, 10), &state, z).unwrap();
    assert_eq!((out.width(), out.height()), (30, 10));
}

#[test]
fn composite_zoom_in_after_pan() {
    let img = gradient(20, 20);
    let state = PanState { offset_x: 2, offset_y: 0, panning: false };
    let z = ZoomLevel::from_level(1).unwrap();
    // pan by 2, then crop 1 from each side: 18x18, scaled to 20x20
    let out = composite(&img, size(18, 18), &state, z).unwrap();
    assert_eq!(pixel(&out, 0, 0), CLEAR);
    assert_eq!(pixel(&out, 1, 0), [0, 1, 7, 255]);
}

#[test]
fn remap_offset_and_scale() {
    let img = gradient(3, 3);
    let out = remap(&img, 2, 2, Axis::Offset(-1), Axis::Offset(1));
    assert_eq!(pixel(&out, 0, 0), CLEAR);
    assert_eq!(pixel(&out, 0, 1), [1, 0, 7, 255]);
    assert_eq!(pixel(&out, 1, 1), [2, 0, 7, 255]);
    let out = remap(&img, 3, 1, Axis::Scale, Axis::Scale);
    assert_eq!(pixel(&out, 2, 0), [2, 1, 7, 255]);
}

#[test]
fn composite_empty_image_gives_transparent_window() {
    let img = Raster::new(0, 0, Vec::new()).unwrap();
    let out = composite(&img, size(6, 4), &PanState::new(), ZoomLevel::new()).unwrap();
    assert_eq!((out.width(), out.height()), (6, 4));
    assert!(out.data().iter().all(|&b| b == 0));
}

#[test]
fn composite_zoom_out_then_pan() {
    let img = gradient(20, 20);
    let z = ZoomLevel::from_level(-1).unwrap();
    // pad 1 on every side: 22x22, then pan right by 1
    let state = PanState { offset_x: 1, offset_y: 0, panning: false };
    let out = composite(&img, size(22, 22), &state, z).unwrap();
    assert_eq!(pixel(&out, 1, 1), CLEAR);
    assert_eq!(pixel(&out, 2, 1), [0, 0, 7, 255]);
    assert_eq!(pixel(&out, 21, 20), [19, 19, 7, 255]);
}

#[test]
fn can_composite_checks_sizes() {
    let img = gradient(20, 20);
    assert!(can_composite(&img, size(100, 100), ZoomLevel::new()));
    assert!(can_composite(&img, size(0, 0), ZoomLevel::from_level(-MAX_ZOOM).unwrap()));
}
