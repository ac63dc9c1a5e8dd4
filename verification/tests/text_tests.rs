use video_live_delay::pipelines::{capture, PLAYBACK};
use video_live_delay::text::{decimal_string, push_decimal};

#[test]
fn decimal_string_matches_std_formatting() {
    for n in (0usize..2000).chain([9999, 10000, 65535, 1_000_000, usize::MAX]) {
        assert_eq!(decimal_string(n), n.to_string());
    }
}

#[test]
fn push_decimal_appends() {
    let mut text = String::from("width=");
    push_decimal(&mut text, 1280);
    assert_eq!(text, "width=1280");
}

#[test]
fn capture_describes_camera_at_configured_size() {
    let expected = format!(
        "\n\t\tlibcamerasrc !\n\t\t\tvideo/x-raw,\n\t\t\t\twidth={},\n\t\t\t\theight={},\n\t\t\t\tframerate={}/1 !\n\t\t\tappsink\n\t\t\t\tname=capture_sink\n\t\t\t\tsync=false\n\t\t\t\tmax-buffers=2\n\t\t\t\tdrop=true\n\t\t",
        1280, 720, 60,
    );
    assert_eq!(capture(), expected);
    assert!(capture().contains("width=1280,"));
    assert!(capture().contains("height=720,"));
    assert!(capture().contains("framerate=60/1 !"));
}

#[test]
fn playback_names_source_and_sink() {
    assert!(PLAYBACK.contains("name=playback_src"));
    assert!(PLAYBACK.contains("name=video_sink"));
    assert!(PLAYBACK.starts_with("\n\tappsrc\n"));
    assert!(PLAYBACK.ends_with("\tgtkglsink\n\t\tname=video_sink\n"));
}
