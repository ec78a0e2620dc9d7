use luminix::raster::Raster;
use luminix::scheduler::{delay_millis, AnimationFrame, FrameScheduler};

fn frame(shade: u8, numer: u32, denom: u32) -> AnimationFrame {
    let raster = Raster::new(1, 1, vec![shade, shade, shade, 255]).unwrap();
    AnimationFrame::from_delay_ratio(raster, numer, denom)
}

fn three_frames(now: u64) -> FrameScheduler {
    FrameScheduler::new(vec![frame(10, 100, 1), frame(20, 200, 1), frame(30, 50, 1)], now).unwrap()
}

#[test]
fn delay_truncates() {
    assert_eq!(delay_millis(100, 3), 33);
    assert_eq!(delay_millis(0, 7), 0);
    assert_eq!(delay_millis(70, 1), 70);
    assert_eq!(frame(0, 1001, 10).delay_ms, 100);
}

#[test]
fn scheduler_needs_frames() {
    assert!(FrameScheduler::new(Vec::new(), 0).is_none());
}

#[test]
fn scheduler_starts_playing_on_first_frame() {
    let s = three_frames(1000);
    assert_eq!(s.len(), 3);
    assert_eq!(s.index(), 0);
    assert_eq!(s.shown(), 0);
    assert!(s.is_playing());
    assert_eq!(s.deadline(), Some(1100));
    assert_eq!(s.current_frame().raster.data()[0], 10);
}

#[test]
fn scheduler_wraparound_forward() {
    let mut s = three_frames(0);
    assert_eq!(s.advance(true, 0), 0);
    assert_eq!(s.index(), 1);
    assert_eq!(s.deadline(), Some(200));
    assert_eq!(s.advance(true, 10), 1);
    assert_eq!(s.index(), 2);
    assert_eq!(s.deadline(), Some(60));
    assert_eq!(s.advance(true, 20), 2);
    assert_eq!(s.index(), 0);
    assert_eq!(s.shown(), 2);
    assert_eq!(s.current_frame().raster.data()[0], 30);
}

#[test]
fn scheduler_wraparound_backward() {
    let mut s = three_frames(0);
    assert_eq!(s.advance(false, 5), 0);
    assert_eq!(s.index(), 2);
    assert_eq!(s.deadline(), Some(55));
}

#[test]
fn scheduler_pause_freezes() {
    let mut s = three_frames(0);
    assert_eq!(s.tick(100), Some(0));
    assert_eq!(s.index(), 1);
    s.toggle_pause(150);
    assert!(!s.is_playing());
    assert_eq!(s.deadline(), None);
    for now in [300, 400, 10_000] {
        assert_eq!(s.tick(now), None);
        assert_eq!(s.index(), 1);
        assert_eq!(s.shown(), 0);
    }
    s.toggle_pause(500);
    assert!(s.is_playing());
    assert_eq!(s.deadline(), Some(700));
    assert_eq!(s.tick(700), Some(1));
    assert_eq!(s.index(), 2);
}

#[test]
fn scheduler_step_only_while_paused() {
    let mut s = three_frames(0);
    assert_eq!(s.step(true, 0), None);
    assert_eq!(s.index(), 0);
    s.toggle_pause(0);
    assert_eq!(s.step(true, 10), Some(0));
    assert_eq!(s.index(), 1);
    assert_eq!(s.deadline(), None);
    assert_eq!(s.step(false, 20), Some(1));
    assert_eq!(s.index(), 0);
    assert_eq!(s.step(false, 30), Some(0));
    assert_eq!(s.index(), 2);
}

#[test]
fn scheduler_zero_delay_frame_is_due_at_once() {
    let mut s = FrameScheduler::new(vec![frame(1, 0, 1), frame(2, 0, 3)], 42).unwrap();
    assert_eq!(s.deadline(), Some(42));
    assert_eq!(s.tick(42), Some(0));
    assert_eq!(s.deadline(), Some(42));
}

#[test]
fn scheduler_deadline_saturates() {
    let mut s = three_frames(u64::MAX - 10);
    assert_eq!(s.deadline(), Some(u64::MAX));
    s.tick(u64::MAX);
    assert_eq!(s.deadline(), Some(u64::MAX));
}

#[test]
fn scheduler_single_frame_wraps_to_itself() {
    let mut s = FrameScheduler::new(vec![frame(9, 40, 1)], 0).unwrap();
    assert_eq!(s.advance(true, 0), 0);
    assert_eq!(s.index(), 0);
    assert_eq!(s.advance(false, 0), 0);
    assert_eq!(s.index(), 0);
}
