//! The animated media icon: which frames are kept, and which frame shows
//! on each tick of the animation timer.
use vstd::prelude::*;

verus! {

/// At most this many frames are animated.
pub const MAX_FRAMES: usize = 2;

/// Of the decoded frames (width and height of each), the indices of those
/// of the animation's own size, in order.
pub open spec fn same_size_frames(width: u32, height: u32, frames: Seq<(u32, u32)>) -> Seq<int>
    decreases frames.len(),
{
    if frames.len() == 0 {
        Seq::empty()
    } else {
        let r = same_size_frames(width, height, frames.drop_last());
        if frames.last() == (width, height) {
            r.push(frames.len() - 1)
        } else {
            r
        }
    }
}

/// The frames kept of an animation of `width` by `height`: those of that
/// size; frames of another size are skipped.
pub fn kept_frames(width: u32, height: u32, frames: &Vec<(u32, u32)>) -> (r: Vec<usize>)
    ensures
        r@.map_values(|i: usize| i as int) == same_size_frames(width, height, frames@),
{
    let mut out: Vec<usize> = Vec::new();
    let mut k: usize = 0;
    while k < frames.len()
        invariant
            0 <= k <= frames@.len(),
            out@.map_values(|i: usize| i as int) == same_size_frames(width, height, frames@.take(k as int)),
        decreases frames@.len() - k,
    {
        assert(frames@.take(k + 1).drop_last() =~= frames@.take(k as int));
        let ghost before = out@;
        if frames[k].0 == width && frames[k].1 == height {
            out.push(k);
            assert(out@.map_values(|i: usize| i as int) =~= before.map_values(|i: usize| i as int).push(k as int));
        }
        k = k + 1;
    }
    assert(frames@.take(frames@.len() as int) =~= frames@);
    out
}

/// The number of frames the animation cycles through: the frames there are,
/// at least one and at most `MAX_FRAMES`.
pub open spec fn cycle_length(frames: usize) -> usize {
    if frames < 1 {
        1
    } else if frames > MAX_FRAMES {
        MAX_FRAMES
    } else {
        frames
    }
}

/// The animation's place: the frame shown, and the frame last handed to the bar.
pub struct GifAnimator {
    frame_count: usize,
    current_frame: usize,
    last_frame: usize,
}

impl GifAnimator {
    pub closed spec fn cycle(self) -> usize {
        self.frame_count
    }

    pub closed spec fn current(self) -> usize {
        self.current_frame
    }

    pub closed spec fn last_shown(self) -> usize {
        self.last_frame
    }

    /// The animation of `frames` frames, at its first frame, nothing handed to the bar yet.
    pub fn start_animation(frames: usize) -> (a: Self)
        ensures
            a.cycle() == cycle_length(frames),
            a.current() == 0,
            a.last_shown() == usize::MAX,
    {
        let frame_count = if frames < 1 {
            1
        } else if frames > MAX_FRAMES {
            MAX_FRAMES
        } else {
            frames
        };
        GifAnimator { frame_count, current_frame: 0, last_frame: usize::MAX }
    }

    /// One tick of the animation timer. While the media does not play the
    /// animation rests at frame 0, handing 0 to the bar when it moves there;
    /// while it plays the next frame of the cycle shows, handed to the bar
    /// when it differs from the one last handed.
    pub fn tick(&mut self, playing: bool) -> (frame: Option<i32>)
        requires
            1 <= old(self).cycle() <= MAX_FRAMES,
            old(self).current() < old(self).cycle(),
        ensures
            final(self).cycle() == old(self).cycle(),
            final(self).current() < final(self).cycle(),
            !playing ==> {
                &&& final(self).current() == 0
                &&& (old(self).current() != 0 ==> frame == Some(0i32) && final(self).last_shown() == 0)
                &&& (old(self).current() == 0 ==> frame is None && final(self).last_shown() == old(self).last_shown())
            },
            playing ==> {
                let next = (old(self).current() + 1) % (old(self).cycle() as int);
                &&& final(self).current() == next
                &&& final(self).last_shown() == next
                &&& frame == if next != old(self).last_shown() {
                    Some(next as i32)
                } else {
                    None
                }
            },
    {
        if !playing {
            if self.current_frame != 0 {
                self.current_frame = 0;
                self.last_frame = 0;
                return Some(0);
            }
            return None;
        }
        self.current_frame = (self.current_frame + 1) % self.frame_count;
        if self.current_frame != self.last_frame {
            self.last_frame = self.current_frame;
            Some(self.current_frame as i32)
        } else {
            None
        }
    }
}

} // verus!
