use chartex_radio::capture::{CaptureStep, TransportCause, Windower};
use chartex_radio::plan::PlaybackPlan;

fn stream(interval: u64) -> PlaybackPlan {
    PlaybackPlan::continuous(String::from("http://x/live"), interval).unwrap()
}

fn segment(duration: u64) -> PlaybackPlan {
    PlaybackPlan::segmented(String::from("http://x/seg0.ts"), duration).unwrap()
}

fn pending(step: CaptureStep) -> Windower {
    match step {
        CaptureStep::Pending(windower) => windower,
        CaptureStep::Full(window) => panic!("flushed early: {:?}", window),
    }
}

#[test]
fn stream_window_is_not_let_go_before_the_interval() {
    let mut windower = Windower::new(&stream(5_000));
    for step in 0..5 {
        windower = pending(windower.on_chunk(&[step as u8, 0xFF], step * 1_000 + 999));
    }
    match windower.on_chunk(&[9], 5_000) {
        CaptureStep::Full(window) => {
            assert_eq!(window.bytes(), &[0, 0xFF, 1, 0xFF, 2, 0xFF, 3, 0xFF, 4, 0xFF, 9]);
            assert_eq!(window.duration(), 5_000);
        }
        CaptureStep::Pending(_) => panic!("not flushed at the interval"),
    }
}

#[test]
fn stream_window_may_overshoot_by_one_chunk() {
    let windower = pending(Windower::new(&stream(5)).on_chunk(b"ab", 4));
    match windower.on_chunk(b"cd", 17) {
        CaptureStep::Full(window) => {
            assert_eq!(window.bytes(), b"abcd");
            assert_eq!(window.duration(), 5);
        }
        CaptureStep::Pending(_) => panic!("not flushed past the interval"),
    }
}

#[test]
fn first_chunk_can_fill_the_window() {
    match Windower::new(&stream(1)).on_chunk(b"x", 1) {
        CaptureStep::Full(window) => assert_eq!(window.bytes(), b"x"),
        CaptureStep::Pending(_) => panic!("not flushed"),
    }
}

#[test]
fn empty_chunks_change_nothing_but_are_counted_in_time() {
    let windower = pending(Windower::new(&stream(2)).on_chunk(b"", 0));
    match windower.on_chunk(b"", 2) {
        CaptureStep::Full(window) => assert_eq!(window.bytes(), b""),
        CaptureStep::Pending(_) => panic!("not flushed"),
    }
}

#[test]
fn stream_that_ends_has_broken_off() {
    let windower = pending(Windower::new(&stream(5)).on_chunk(b"ab", 1));
    assert_eq!(windower.on_end(), Err(TransportCause::Closed));
    assert_eq!(Windower::new(&stream(5)).on_end(), Err(TransportCause::Closed));
}

#[test]
fn segment_window_is_the_whole_segment() {
    let mut windower = Windower::new(&segment(6));
    windower = pending(windower.on_chunk(b"abc", 0));
    windower = pending(windower.on_chunk(b"def", 100));
    let window = windower.on_end().unwrap();
    assert_eq!(window.bytes(), b"abcdef");
    assert_eq!(window.duration(), 6);
}

#[test]
fn empty_segment_is_an_empty_window() {
    let window = Windower::new(&segment(6)).on_end().unwrap();
    assert_eq!(window.bytes(), b"");
    assert_eq!(window.duration(), 6);
}
