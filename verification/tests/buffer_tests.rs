use video_live_delay::video::PlaybackState;
use video_live_delay::video_buffer::VideoBuffer;

#[test]
fn empty_buffer_has_no_delayed_frame() {
    let buffer: VideoBuffer<u32> = VideoBuffer::new(5);
    assert_eq!(buffer.len(), 0);
    assert_eq!(buffer.delayed_sample(0), None);
}

#[test]
fn delay_zero_is_newest_frame() {
    let mut buffer = VideoBuffer::new(5);
    buffer.push(10u32);
    buffer.push(11);
    assert_eq!(buffer.delayed_sample(0), Some(11));
    assert_eq!(buffer.delayed_sample(1), Some(10));
    assert_eq!(buffer.delayed_sample(2), None);
}

#[test]
fn history_keeps_max_delay_plus_one_frames() {
    let mut buffer = VideoBuffer::new(3);
    for i in 0..10u32 {
        buffer.push(i);
        assert!(buffer.len() <= 4);
    }
    assert_eq!(buffer.len(), 4);
    assert_eq!(buffer.delayed_sample(0), Some(9));
    assert_eq!(buffer.delayed_sample(3), Some(6));
    assert_eq!(buffer.delayed_sample(4), None);
}

#[test]
fn delayed_frame_is_the_one_pushed_that_long_ago() {
    let max = 7;
    let mut buffer = VideoBuffer::new(max);
    for i in 0..50usize {
        buffer.push(i * 3);
        for d in 0..12usize {
            let expected = if d <= max && d <= i { Some((i - d) * 3) } else { None };
            assert_eq!(buffer.delayed_sample(d), expected);
        }
    }
}

#[test]
fn zero_max_delay_keeps_only_newest() {
    let mut buffer = VideoBuffer::new(0);
    buffer.push("a");
    buffer.push("b");
    assert_eq!(buffer.len(), 1);
    assert_eq!(buffer.delayed_sample(0), Some("b"));
    assert_eq!(buffer.delayed_sample(1), None);
}

#[test]
fn first_frame_is_announced_once() {
    let mut state: PlaybackState<u8> = PlaybackState::new(4);
    assert!(state.first_frame_arrived());
    assert!(!state.first_frame_arrived());
    assert!(!state.first_frame_arrived());
}

#[test]
fn playback_waits_for_the_delay_then_starts_once() {
    let mut state = PlaybackState::new(10);
    let _ = state.first_frame_arrived();
    let step = state.relay_frame(100u32, 2);
    assert_eq!(step.output, None);
    assert!(!step.announce_playback);
    let step = state.relay_frame(101, 2);
    assert_eq!(step.output, None);
    assert!(!step.announce_playback);
    let step = state.relay_frame(102, 2);
    assert_eq!(step.output, Some(100));
    assert!(step.announce_playback);
    let step = state.relay_frame(103, 2);
    assert_eq!(step.output, Some(101));
    assert!(!step.announce_playback);
}

#[test]
fn playback_follows_changes_of_delay() {
    let mut state = PlaybackState::new(5);
    for i in 0..6u32 {
        let _ = state.relay_frame(i, 0);
    }
    let step = state.relay_frame(6, 3);
    assert_eq!(step.output, Some(3));
    let step = state.relay_frame(7, 5);
    assert_eq!(step.output, Some(2));
    let step = state.relay_frame(8, 6);
    assert_eq!(step.output, None);
    assert!(!step.announce_playback);
}
