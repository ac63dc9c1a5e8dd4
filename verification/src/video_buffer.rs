//! The history of recent frames, and the choice of the frame to play back.
use vstd::prelude::*;

use std::collections::VecDeque;

verus! {

/// The last `n` items of `s`, or all of `s` where it holds no more than `n`.
pub open spec fn keep_last<T>(s: Seq<T>, n: nat) -> Seq<T> {
    if s.len() > n {
        s.subrange(s.len() - n, s.len() as int)
    } else {
        s
    }
}

/// The frame shown with a delay of `delay_frames`: the one recorded `delay_frames` frames
/// before the newest, where the history reaches back that far.
pub open spec fn delayed_in<T>(history: Seq<T>, delay_frames: nat) -> Option<T> {
    if history.len() > delay_frames {
        Some(history[history.len() - 1 - delay_frames])
    } else {
        None
    }
}

/// Keeping the last `n` items drops only the oldest ones: what remains has `min(len, n)`
/// items, in the same order, and every delay it still reaches selects the same item as before.
pub proof fn law_trim_keeps_served_delays<T>(s: Seq<T>, n: nat)
    ensures
        keep_last(s, n).len() == if s.len() <= n {
            s.len()
        } else {
            n
        },
        s.len() <= n ==> keep_last(s, n) == s,
        forall|d: nat| d < keep_last(s, n).len() ==> #[trigger] delayed_in(keep_last(s, n), d)
            == delayed_in(s, d),
{
}

/// The history of a buffer that keeps `n` frames, after the frames of `pushes` were pushed
/// one by one, starting from an empty history.
pub open spec fn replay<T>(pushes: Seq<T>, n: nat) -> Seq<T>
    decreases pushes.len(),
{
    if pushes.len() == 0 {
        Seq::empty()
    } else {
        keep_last(replay(pushes.drop_last(), n).push(pushes.last()), n)
    }
}

/// Trimming before or after a push keeps the same frames.
pub proof fn lemma_keep_last_push<T>(s: Seq<T>, x: T, n: nat)
    ensures
        keep_last(keep_last(s, n).push(x), n) == keep_last(s.push(x), n),
{
    assert(keep_last(keep_last(s, n).push(x), n) =~= keep_last(s.push(x), n));
}

/// The history holds exactly the last `n` frames pushed (all of them while fewer were
/// pushed), whatever the order in which trimming happened.
pub proof fn law_history_is_last_frames<T>(pushes: Seq<T>, n: nat)
    ensures
        replay(pushes, n) == keep_last(pushes, n),
    decreases pushes.len(),
{
    if pushes.len() > 0 {
        law_history_is_last_frames(pushes.drop_last(), n);
        lemma_keep_last_push(pushes.drop_last(), pushes.last(), n);
        assert(pushes.drop_last().push(pushes.last()) =~= pushes);
    }
}

/// The frame played with a delay of `d` frames is the one pushed `d` frames before the newest,
/// as soon as that many frames were pushed and as long as `d` is within the largest delay;
/// otherwise there is none.
pub proof fn law_delayed_frame_is_past_frame<T>(pushes: Seq<T>, max_delay: nat, d: nat)
    ensures
        delayed_in(replay(pushes, max_delay + 1), d) == if d <= max_delay && d < pushes.len() {
            Some(pushes[pushes.len() - 1 - d])
        } else {
            None::<T>
        },
{
    law_history_is_last_frames(pushes, max_delay + 1);
}

/// The most recent frames, oldest first, enough to serve any delay up to `max_delay_frames`.
pub struct VideoBuffer<T> {
    history: VecDeque<T>,
    max_delay_frames: usize,
}

impl<T> View for VideoBuffer<T> {
    type V = Seq<T>;

    /// The stored frames, oldest first.
    closed spec fn view(&self) -> Seq<T> {
        self.history@
    }
}

impl<T> VideoBuffer<T> {
    /// The largest delay the history is kept for.
    pub closed spec fn max_delay(&self) -> nat {
        self.max_delay_frames as nat
    }

    /// The history never holds more than the newest frame and `max_delay` older ones.
    pub closed spec fn wf(&self) -> bool {
        &&& self.max_delay_frames < usize::MAX
        &&& self.history@.len() <= self.max_delay_frames + 1
    }

    /// An empty history for delays up to `max_delay_frames`.
    pub fn new(max_delay_frames: usize) -> (res: Self)
        requires
            max_delay_frames < usize::MAX,
        ensures
            res.wf(),
            res@ == Seq::<T>::empty(),
            res.max_delay() == max_delay_frames,
    {
        VideoBuffer { history: VecDeque::with_capacity(max_delay_frames + 1), max_delay_frames }
    }

    /// Records `sample` as the newest frame, dropping the oldest ones beyond what the largest
    /// delay needs.
    pub fn push(&mut self, sample: T)
        requires
            old(self).wf(),
        ensures
            final(self).wf(),
            final(self).max_delay() == old(self).max_delay(),
            final(self)@ == keep_last(old(self)@.push(sample), old(self).max_delay() + 1),
            final(self)@.len() <= final(self).max_delay() + 1,
    {
        self.history.push_back(sample);
        self.trim();
    }

    /// The frame recorded `delay_frames` frames before the newest, as a clone; `None` while
    /// the history does not reach back that far.
    pub fn delayed_sample(&self, delay_frames: usize) -> (res: Option<T>)
        where
            T: Clone,
        ensures
            res is Some <==> delayed_in(self@, delay_frames as nat) is Some,
            res is Some ==> cloned(delayed_in(self@, delay_frames as nat)->0, res->0),
    {
        // if there aren't enough frames in the buffer
        if self.history.len() <= delay_frames {
            return None;
        }
        let index = self.history.len() - 1 - delay_frames;
        Some(self.history[index].clone())
    }

    /// A valid history never holds more than the newest frame and `max_delay` older ones.
    pub proof fn lemma_bounded(&self)
        requires
            self.wf(),
        ensures
            self@.len() <= self.max_delay() + 1,
            self.max_delay() < usize::MAX,
    {
    }

    /// The number of stored frames; never more than `max_delay() + 1`.
    pub fn len(&self) -> (res: usize)
        ensures
            res == self@.len(),
            self.wf() ==> res <= self.max_delay() + 1,
    {
        self.history.len()
    }

    /// Drops the oldest frames until at most `max_delay_frames + 1` remain.
    fn trim(&mut self)
        requires
            old(self).max_delay_frames < usize::MAX,
        ensures
            final(self).max_delay_frames == old(self).max_delay_frames,
            final(self)@ == keep_last(old(self)@, (old(self).max_delay_frames + 1) as nat),
    {
        let limit = self.max_delay_frames + 1;
        while self.history.len() > limit
            invariant
                limit == self.max_delay_frames + 1,
                self.max_delay_frames == old(self).max_delay_frames,
                keep_last(self.history@, limit as nat) == keep_last(old(self)@, limit as nat),
            decreases self.history@.len(),
        {
            let ghost before = self.history@;
            self.history.pop_front();
            assert(keep_last(self.history@, limit as nat) =~= keep_last(before, limit as nat));
        }
    }
}

} // verus!
