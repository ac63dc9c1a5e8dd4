//! Descriptions of the capture and playback pipelines, in the media framework's launch syntax.
use vstd::prelude::*;

use crate::config::{FPS, VIDEO_HEIGHT, VIDEO_WIDTH};
use crate::text::{decimal_text, push_decimal};

verus! {

/// The capture description up to the picture width.
pub const CAPTURE_HEAD: &'static str = "\n\t\tlibcamerasrc !\n\t\t\tvideo/x-raw,\n\t\t\t\twidth=";

/// The capture description between the width and the height.
pub const CAPTURE_HEIGHT_KEY: &'static str = ",\n\t\t\t\theight=";

/// The capture description between the height and the frame rate.
pub const CAPTURE_RATE_KEY: &'static str = ",\n\t\t\t\tframerate=";

/// The capture description after the frame rate: the sink that hands frames to the delay line.
pub const CAPTURE_TAIL: &'static str = "/1 !\n\t\t\tappsink\n\t\t\t\tname=capture_sink\n\t\t\t\tsync=false\n\t\t\t\tmax-buffers=2\n\t\t\t\tdrop=true\n\t\t";

/// The playback pipeline: delayed frames go in at `playback_src` and are drawn by `video_sink`.
pub const PLAYBACK: &'static str = "\n\tappsrc\n\t\tname=playback_src\n\t\tis-live=true\n\t\tformat=time\n\t\tdo-timestamp=true\n\t\tblock=false\n\t!\n\tqueue\n\t\tmax-size-buffers=4\n\t\tmax-size-bytes=0\n\t\tmax-size-time=0\n\t\tleaky=downstream\n\t!\n\tglupload\n\t!\n\tglcolorconvert\n\t!\n\tgtkglsink\n\t\tname=video_sink\n";

/// The capture description: the camera at the configured size and frame rate, feeding
/// the sink named `capture_sink`.
pub open spec fn capture_text() -> Seq<char> {
    CAPTURE_HEAD@ + decimal_text(VIDEO_WIDTH as nat) + CAPTURE_HEIGHT_KEY@ + decimal_text(
        VIDEO_HEIGHT as nat,
    ) + CAPTURE_RATE_KEY@ + decimal_text(FPS as nat) + CAPTURE_TAIL@
}

/// The capture pipeline description, with the configured width, height and frame rate.
pub fn capture() -> (res: String)
    ensures
        res@ == capture_text(),
{
    let mut text = String::new();
    text.append(CAPTURE_HEAD);
    push_decimal(&mut text, VIDEO_WIDTH);
    text.append(CAPTURE_HEIGHT_KEY);
    push_decimal(&mut text, VIDEO_HEIGHT);
    text.append(CAPTURE_RATE_KEY);
    push_decimal(&mut text, FPS);
    text.append(CAPTURE_TAIL);
    text
}

} // verus!
