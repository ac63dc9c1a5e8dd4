//! The per-frame decisions of the delay line: what to announce and which frame to play back.
//!
//! For every frame that the camera delivers, the surrounding application calls
//! [`PlaybackState::first_frame_arrived`], stores a copy of the frame with
//! [`PlaybackState::relay_frame`] together with the delay selected at that moment, and plays
//! back the frame that this returns, if any.
use vstd::prelude::*;

use crate::video_buffer::{delayed_in, keep_last, VideoBuffer};

verus! {

/// What to do after a frame was stored.
pub struct FrameOutcome<T> {
    /// The frame to play back now; `None` while the history is shorter than the delay.
    pub output: Option<T>,
    /// Whether this is the first frame played back, which the application announces.
    pub announce_playback: bool,
}

/// The state kept between frames: the frame history and whether the first frame and the
/// start of playback were already announced.
pub struct PlaybackState<T> {
    video_buffer: VideoBuffer<T>,
    first_frame: bool,
    playback_started: bool,
}

impl<T> PlaybackState<T> {
    /// The stored frames, oldest first.
    pub closed spec fn history(&self) -> Seq<T> {
        self.video_buffer@
    }

    /// The largest delay the history is kept for.
    pub closed spec fn max_delay(&self) -> nat {
        self.video_buffer.max_delay()
    }

    /// No frame has arrived yet.
    pub closed spec fn awaiting_first_frame(&self) -> bool {
        self.first_frame
    }

    /// Some frame has already been played back.
    pub closed spec fn playback_started(&self) -> bool {
        self.playback_started
    }

    pub closed spec fn wf(&self) -> bool {
        self.video_buffer.wf()
    }

    /// A valid state never keeps more than the newest frame and `max_delay` older ones.
    pub proof fn lemma_bounded(&self)
        requires
            self.wf(),
        ensures
            self.history().len() <= self.max_delay() + 1,
            self.max_delay() < usize::MAX,
    {
        self.video_buffer.lemma_bounded();
    }

    /// The state before the first frame, for delays up to `max_delay_frames`.
    pub fn new(max_delay_frames: usize) -> (res: Self)
        requires
            max_delay_frames < usize::MAX,
        ensures
            res.wf(),
            res.history() == Seq::<T>::empty(),
            res.max_delay() == max_delay_frames,
            res.awaiting_first_frame(),
            !res.playback_started(),
    {
        PlaybackState {
            video_buffer: VideoBuffer::new(max_delay_frames),
            first_frame: true,
            playback_started: false,
        }
    }

    /// Notes that a frame arrived; true exactly for the first one, which the application
    /// announces.
    pub fn first_frame_arrived(&mut self) -> (announce: bool)
        requires
            old(self).wf(),
        ensures
            final(self).wf(),
            announce == old(self).awaiting_first_frame(),
            !final(self).awaiting_first_frame(),
            final(self).history() == old(self).history(),
            final(self).max_delay() == old(self).max_delay(),
            final(self).playback_started() == old(self).playback_started(),
    {
        let announce = self.first_frame;
        self.first_frame = false;
        announce
    }

    /// Stores `sample` as the newest frame and picks the frame to play back with a delay of
    /// `target_delay` frames.
    pub fn relay_frame(&mut self, sample: T, target_delay: usize) -> (res: FrameOutcome<T>)
        where
            T: Clone,
        requires
            old(self).wf(),
        ensures
            final(self).wf(),
            final(self).max_delay() == old(self).max_delay(),
            final(self).history() == keep_last(
                old(self).history().push(sample),
                old(self).max_delay() + 1,
            ),
            final(self).history().len() <= final(self).max_delay() + 1,
            res.output is Some <==> delayed_in(final(self).history(), target_delay as nat) is Some,
            res.output is Some ==> cloned(
                delayed_in(final(self).history(), target_delay as nat)->0,
                res.output->0,
            ),
            res.announce_playback == (res.output is Some && !old(self).playback_started()),
            final(self).playback_started() == (old(self).playback_started() || res.output is Some),
            final(self).awaiting_first_frame() == old(self).awaiting_first_frame(),
    {
        self.video_buffer.push(sample);
        let output = self.video_buffer.delayed_sample(target_delay);
        let announce_playback = match output {
            Some(_) => !self.playback_started,
            None => false,
        };
        if announce_playback {
            self.playback_started = true;
        }
        FrameOutcome { output, announce_playback }
    }
}

} // verus!
