use tgui_player::frame::{AppMsg, AppState, FrameBuffer, WrapBuffer};
use tgui_player::timecode::fmt_time;

#[test]
fn fmt_time_zero() {
    assert_eq!(fmt_time(0), "00:00:00");
}

#[test]
fn fmt_time_pads_each_field() {
    assert_eq!(fmt_time(3661), "01:01:01");
    assert_eq!(fmt_time(59), "00:00:59");
    assert_eq!(fmt_time(60), "00:01:00");
    assert_eq!(fmt_time(3599), "00:59:59");
}

#[test]
fn fmt_time_hours_grow_past_two_digits() {
    assert_eq!(fmt_time(36_000), "10:00:00");
    assert_eq!(fmt_time(360_000 + 754), "100:12:34");
    assert_eq!(fmt_time(u64::MAX), "5124095576030431:00:15");
}

#[test]
fn fmt_time_distinct_times_distinct_texts() {
    let mut seen = std::collections::HashSet::new();
    for s in 0..20_000u64 {
        assert!(seen.insert(fmt_time(s)));
    }
}

fn buffer(width: u32, height: u32) -> FrameBuffer {
    FrameBuffer { width, height, data: vec![0; (width * height * 4) as usize] }
}

#[test]
fn wrap_buffer_starts_idle() {
    let b = WrapBuffer::new(buffer(0, 0), (0, 0));
    assert!(!b.is_synced);
    assert_eq!(b.msg, AppMsg::Unknown);
    assert_eq!(b.status, AppState::Played);
    assert_eq!(b.cur_time, 0);
    assert_eq!(b.total_time, 0);
    assert_eq!(b.size, (0, 0));
    assert_eq!(b.fmt_cur_time(), "00:00:00");
    assert_eq!(b.fmt_total_time(), "00:00:00");
}

#[test]
fn wrap_buffer_time_label() {
    let mut b = WrapBuffer::new(buffer(0, 0), (0, 0));
    b.cur_time = 75;
    b.total_time = 3725;
    assert_eq!(b.time_label(), "00:01:15 - 01:02:05");
}

#[test]
fn wrap_buffer_first_frame_needs_a_picture() {
    let mut b = WrapBuffer::new(buffer(0, 0), (0, 0));
    assert!(b.needs_buffer());
    b.install_buffer(buffer(2, 1), (2, 1));
    assert!(!b.needs_buffer());
    assert_eq!(b.size, (2, 1));
    assert_eq!(b.inner.data.len(), 8);
}

#[test]
fn wrap_buffer_stores_frame_then_keeps_it_until_shown() {
    let mut b = WrapBuffer::new(buffer(0, 0), (0, 0));
    b.install_buffer(buffer(2, 1), (2, 1));
    let first: Vec<u8> = (1..=8).collect();
    assert!(b.store_frame(&first, 3, 90));
    assert!(b.is_synced);
    assert_eq!(b.inner.data, first);
    assert_eq!((b.cur_time, b.total_time), (3, 90));
    assert!(!b.needs_buffer());

    let second = vec![9u8; 8];
    assert!(!b.store_frame(&second, 4, 90));
    assert_eq!(b.inner.data, first);
    assert_eq!(b.cur_time, 3);

    b.mark_shown();
    assert!(!b.is_synced);
    assert!(b.store_frame(&second, 4, 90));
    assert_eq!(b.inner.data, second);
    assert_eq!(b.cur_time, 4);
}

#[test]
fn fmt_time_sorts_below_hundred_hours() {
    let mut prev = fmt_time(0);
    for s in (1..360_000u64).step_by(7) {
        let t = fmt_time(s);
        assert_eq!(t.len(), 8);
        assert!(prev <= t, "{prev} {t}");
        prev = t;
    }
    assert_eq!(fmt_time(359_999), "99:59:59");
}

#[test]
fn fmt_time_fields_add_up() {
    for s in [0u64, 59, 61, 3599, 3600, 86_399, 360_000, 1_000_000_007] {
        let t = fmt_time(s);
        let parts: Vec<&str> = t.split(':').collect();
        assert_eq!(parts.len(), 3);
        assert!(parts[0].len() >= 2 && parts[1].len() == 2 && parts[2].len() == 2);
        let (h, m, x): (u64, u64, u64) =
            (parts[0].parse().unwrap(), parts[1].parse().unwrap(), parts[2].parse().unwrap());
        assert!(m < 60 && x < 60);
        assert_eq!(h * 3600 + m * 60 + x, s);
    }
}
