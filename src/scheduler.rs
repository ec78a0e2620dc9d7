use vstd::prelude::*;

use vstd::arithmetic::div_mod::lemma_fundamental_div_mod_converse;

use crate::raster::{Raster, RasterView};

verus! {

/// The display time of a frame in whole milliseconds, from a delay given as the
/// fraction `numer / denom` of milliseconds, truncated.
pub fn delay_millis(numer: u32, denom: u32) -> (r: u64)
    requires
        denom > 0,
    ensures
        r == numer / denom,
{
    (numer / denom) as u64
}

/// One frame of an animation and how long it stays on screen.
pub struct AnimationFrame {
    pub raster: Raster,
    pub delay_ms: u64,
}

impl AnimationFrame {
    /// A frame shown for `numer / denom` milliseconds, truncated.
    pub fn from_delay_ratio(raster: Raster, numer: u32, denom: u32) -> (r: AnimationFrame)
        requires
            denom > 0,
        ensures
            r.raster@ == raster@,
            r.delay_ms == numer / denom,
    {
        AnimationFrame { raster, delay_ms: delay_millis(numer, denom) }
    }
}

/// `now + delay`, held at the largest time.
pub open spec fn deadline_after(now: u64, delay: u64) -> u64 {
    if now + delay > u64::MAX {
        u64::MAX
    } else {
        (now + delay) as u64
    }
}

/// The state of an animation: the frames' delays and images, the frame on
/// screen, the frame that comes next, the time at which it is due, and whether
/// the animation plays or is paused. Times are in milliseconds.
pub struct SchedulerView {
    pub delays: Seq<u64>,
    pub rasters: Seq<RasterView>,
    pub index: nat,
    pub shown: nat,
    pub next_deadline: u64,
    pub playing: bool,
}

impl SchedulerView {
    pub open spec fn wf(self) -> bool {
        &&& self.delays.len() > 0
        &&& self.rasters.len() == self.delays.len()
        &&& self.index < self.delays.len()
        &&& self.shown < self.delays.len()
    }

    /// The pending deadline: one while playing, none while paused.
    pub open spec fn deadline(self) -> Option<u64> {
        if self.playing {
            Some(self.next_deadline)
        } else {
            None
        }
    }
}

/// The index after `index` in a sequence of `len`, going forward or back,
/// wrapping at both ends.
pub open spec fn wrapped_step(index: nat, len: nat, forward: bool) -> nat {
    if forward {
        ((index + 1) as int % (len as int)) as nat
    } else if index == 0 {
        (len - 1) as nat
    } else {
        (index - 1) as nat
    }
}

/// Shows the pending frame, moves the pending index one step, and sets the next
/// deadline from the delay of the frame now pending.
pub open spec fn advanced(s: SchedulerView, forward: bool, now: u64) -> SchedulerView {
    let next = wrapped_step(s.index, s.delays.len(), forward);
    SchedulerView {
        shown: s.index,
        index: next,
        next_deadline: deadline_after(now, s.delays[next as int]),
        ..s
    }
}

/// A timer tick: advances forward while playing, does nothing while paused.
pub open spec fn ticked(s: SchedulerView, now: u64) -> SchedulerView {
    if s.playing {
        advanced(s, true, now)
    } else {
        s
    }
}

/// Pauses a playing animation on the frame it shows, or resumes a paused one,
/// the pending frame then being due its delay after `now`.
pub open spec fn toggled(s: SchedulerView, now: u64) -> SchedulerView {
    if s.playing {
        SchedulerView { playing: false, ..s }
    } else {
        SchedulerView {
            playing: true,
            next_deadline: deadline_after(now, s.delays[s.index as int]),
            ..s
        }
    }
}

/// A manual step: advances while paused, arming no deadline; does nothing while
/// playing.
pub open spec fn stepped(s: SchedulerView, forward: bool, now: u64) -> SchedulerView {
    if s.playing {
        s
    } else {
        advanced(s, forward, now)
    }
}

/// The state after a tick at each of the times in `nows`, in order.
pub open spec fn ticked_at(s: SchedulerView, nows: Seq<u64>) -> SchedulerView
    decreases nows.len(),
{
    if nows.len() == 0 {
        s
    } else {
        ticked_at(ticked(s, nows[0]), nows.drop_first())
    }
}

/// Plays an animation: which frame is on screen, which comes next, and when.
pub struct FrameScheduler {
    frames: Vec<AnimationFrame>,
    index: usize,
    shown: usize,
    next_deadline: u64,
    playing: bool,
}

impl View for FrameScheduler {
    type V = SchedulerView;

    closed spec fn view(&self) -> SchedulerView {
        SchedulerView {
            delays: self.frames@.map_values(|f: AnimationFrame| f.delay_ms),
            rasters: self.frames@.map_values(|f: AnimationFrame| f.raster@),
            index: self.index as nat,
            shown: self.shown as nat,
            next_deadline: self.next_deadline,
            playing: self.playing,
        }
    }
}

fn deadline_from(now: u64, delay: u64) -> (r: u64)
    ensures
        r == deadline_after(now, delay),
{
    if delay > u64::MAX - now {
        u64::MAX
    } else {
        now + delay
    }
}

impl FrameScheduler {
    #[verifier::type_invariant]
    pub open spec fn inv(self) -> bool {
        self@.wf()
    }

    /// Starts playing `frames` at `now`: the first frame is on screen and pending,
    /// due after its own delay. No animation without frames.
    pub fn new(frames: Vec<AnimationFrame>, now: u64) -> (r: Option<FrameScheduler>)
        ensures
            r is Some <==> frames@.len() > 0,
            r matches Some(s) ==> {
                &&& s@.delays == frames@.map_values(|f: AnimationFrame| f.delay_ms)
                &&& s@.rasters == frames@.map_values(|f: AnimationFrame| f.raster@)
                &&& s@.index == 0
                &&& s@.shown == 0
                &&& s@.playing
                &&& s@.next_deadline == deadline_after(now, frames@[0].delay_ms)
            },
    {
        if frames.len() == 0 {
            return None;
        }
        let next_deadline = deadline_from(now, frames[0].delay_ms);
        Some(FrameScheduler { frames, index: 0, shown: 0, next_deadline, playing: true })
    }

    pub fn len(&self) -> (r: usize)
        ensures
            r == self@.delays.len(),
            r > 0,
    {
        proof {
            use_type_invariant(self);
        }
        self.frames.len()
    }

    /// The index of the frame that the next advance shows.
    pub fn index(&self) -> (r: usize)
        ensures
            r == self@.index,
    {
        self.index
    }

    /// The index of the frame on screen.
    pub fn shown(&self) -> (r: usize)
        ensures
            r == self@.shown,
    {
        self.shown
    }

    pub fn is_playing(&self) -> (r: bool)
        ensures
            r == self@.playing,
    {
        self.playing
    }

    /// When the next tick is due; none while paused.
    pub fn deadline(&self) -> (r: Option<u64>)
        ensures
            r == self@.deadline(),
    {
        if self.playing {
            Some(self.next_deadline)
        } else {
            None
        }
    }

    /// The frame on screen.
    pub fn current_frame(&self) -> (r: &AnimationFrame)
        ensures
            r.delay_ms == self@.delays[self@.shown as int],
            r.raster@ == self@.rasters[self@.shown as int],
    {
        proof {
            use_type_invariant(self);
        }
        &self.frames[self.shown]
    }

    /// Shows the pending frame and moves on by one frame, forward or back,
    /// wrapping at both ends; the next deadline is the delay of the frame now
    /// pending after `now`. Returns the index of the frame shown.
    pub fn advance(&mut self, forward: bool, now: u64) -> (r: usize)
        ensures
            final(self)@ == advanced(old(self)@, forward, now),
            r == old(self)@.index,
    {
        proof {
            use_type_invariant(&*self);
        }
        let len = self.frames.len();
        let next: usize = if forward {
            (self.index + 1) % len
        } else if self.index == 0 {
            len - 1
        } else {
            self.index - 1
        };
        let shown = self.index;
        let next_deadline = deadline_from(now, self.frames[next].delay_ms);
        self.shown = shown;
        self.index = next;
        self.next_deadline = next_deadline;
        proof {
            assert(self@.delays =~= old(self)@.delays);
            assert(self@.rasters =~= old(self)@.rasters);
        }
        shown
    }

    /// The deadline passed: while playing, shows the pending frame and schedules
    /// the next one, returning the index shown; while paused, nothing happens.
    pub fn tick(&mut self, now: u64) -> (r: Option<usize>)
        ensures
            final(self)@ == ticked(old(self)@, now),
            r == (if old(self)@.playing {
                Some(old(self)@.index as usize)
            } else {
                None::<usize>
            }),
    {
        if self.playing {
            Some(self.advance(true, now))
        } else {
            None
        }
    }

    /// Pauses on the frame on screen, or resumes with the pending frame due its
    /// delay after `now`.
    pub fn toggle_pause(&mut self, now: u64)
        ensures
            final(self)@ == toggled(old(self)@, now),
    {
        proof {
            use_type_invariant(&*self);
        }
        if self.playing {
            self.playing = false;
        } else {
            self.next_deadline = deadline_from(now, self.frames[self.index].delay_ms);
            self.playing = true;
        }
        proof {
            assert(self@.delays =~= old(self)@.delays);
            assert(self@.rasters =~= old(self)@.rasters);
        }
    }

    /// Steps one frame by hand while paused, returning the index shown; while
    /// playing, nothing happens.
    pub fn step(&mut self, forward: bool, now: u64) -> (r: Option<usize>)
        ensures
            final(self)@ == stepped(old(self)@, forward, now),
            r == (if old(self)@.playing {
                None::<usize>
            } else {
                Some(old(self)@.index as usize)
            }),
    {
        if self.playing {
            None
        } else {
            Some(self.advance(forward, now))
        }
    }
}

/// A paused animation stays where it is: after pausing a playing animation, no
/// sequence of ticks moves it, until it is resumed.
pub proof fn lemma_pause_freezes(s: SchedulerView, now: u64, nows: Seq<u64>)
    requires
        s.playing,
    ensures
        ticked_at(toggled(s, now), nows) == toggled(s, now),
        ticked_at(toggled(s, now), nows).index == s.index,
        ticked_at(toggled(s, now), nows).shown == s.shown,
    decreases nows.len(),
{
    if nows.len() > 0 {
        lemma_pause_freezes(s, now, nows.drop_first());
    }
}

/// Going forward wraps from the last frame to the first, and going back wraps
/// from the first frame to the last; a step one way followed by a step the
/// other way comes back to the same frame.
pub proof fn lemma_wraparound(s: SchedulerView, forward: bool, now1: u64, now2: u64)
    requires
        s.wf(),
    ensures
        s.index == s.delays.len() - 1 ==> advanced(s, true, now1).index == 0,
        s.index == 0 ==> advanced(s, false, now1).index == s.delays.len() - 1,
        advanced(advanced(s, forward, now1), !forward, now2).index == s.index,
        advanced(s, forward, now1).wf(),
{
    let n = s.delays.len() as int;
    let i = s.index as int;
    lemma_next_index(i, n);
    let j = wrapped_step(s.index, s.delays.len(), forward) as int;
    lemma_next_index(j, n);
}

proof fn lemma_next_index(i: int, n: int)
    requires
        0 <= i < n,
    ensures
        (i + 1) % n == if i + 1 < n {
            i + 1
        } else {
            0
        },
{
    if i + 1 < n {
        lemma_fundamental_div_mod_converse(i + 1, n, 0, i + 1);
    } else {
        lemma_fundamental_div_mod_converse(i + 1, n, 1, 0);
    }
}

} // verus!
