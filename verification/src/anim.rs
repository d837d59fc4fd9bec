//! Frame-driven animation timing: how a keyframed track maps the host's
//! frame counter onto its own time.

use vstd::prelude::*;

verus! {

/// What a timeline does once the playhead passes its last keyframe.
#[derive(Clone, Copy, Debug, PartialEq, Eq, Structural)]
pub enum Repeat {
    /// Hold the final keyframe's value forever (the default).
    Once,
    /// Jump back to the start and play again, indefinitely.
    Loop,
    /// Play forward then backward, alternating each cycle.
    PingPong,
}

impl Default for Repeat {
    fn default() -> (r: Self)
        ensures
            r == Repeat::Once,
    {
        Repeat::Once
    }
}

/// The local time in `0..=duration` that host `frame` maps to.
pub open spec fn local_time_spec(repeat: Repeat, duration: u64, frame: u64) -> u64 {
    if duration == 0 {
        0
    } else {
        match repeat {
            Repeat::Once => if frame <= duration {
                frame
            } else {
                duration
            },
            Repeat::Loop => (frame % duration) as u64,
            Repeat::PingPong => if (frame / duration) % 2 == 0 {
                (frame % duration) as u64
            } else {
                (duration - frame % duration) as u64
            },
        }
    }
}

/// Map the monotonic host `frame` onto a local time in `0..=duration`: held
/// at the end once, wrapped for a loop, and reflected on odd cycles of a
/// ping-pong.
pub fn local_time(repeat: Repeat, duration: u64, frame: u64) -> (r: u64)
    ensures
        r == local_time_spec(repeat, duration, frame),
        r <= duration,
{
    if duration == 0 {
        return 0;
    }
    match repeat {
        Repeat::Once => if frame <= duration {
            frame
        } else {
            duration
        },
        Repeat::Loop => frame % duration,
        Repeat::PingPong => {
            let pos = frame % duration;
            if (frame / duration) % 2 == 0 {
                pos
            } else {
                duration - pos
            }
        },
    }
}

/// Whether a timeline of `duration` frames has finished at `frame`: only a
/// play-once track ever completes.
pub fn is_complete(repeat: Repeat, duration: u64, frame: u64) -> (r: bool)
    ensures
        r == (repeat == Repeat::Once && frame >= duration),
{
    match repeat {
        Repeat::Once => frame >= duration,
        _ => false,
    }
}

/// The times in strictly increasing order.
pub open spec fn increasing(times: Seq<u64>) -> bool {
    forall|i: int, j: int| 0 <= i < j < times.len() ==> times[i] < times[j]
}

/// Where a new stop goes among a timeline's stops.
#[derive(Clone, Copy, Debug, PartialEq, Eq, Structural)]
pub enum StopPlace {
    /// A stop already sits at that frame; the new one replaces it.
    Replace(usize),
    /// The new stop is inserted at this index, keeping the stops in order.
    Insert(usize),
}

/// The frame offsets of a timeline's stops, kept in strictly increasing
/// order: at most one stop per frame.
#[derive(Debug)]
pub struct StopTimes {
    times: Vec<u64>,
}

impl View for StopTimes {
    type V = Seq<u64>;

    closed spec fn view(&self) -> Seq<u64> {
        self.times@
    }
}

/// The index of the stop a sample at local time `t` interpolates towards:
/// the first stop at or after `t` (the last stop when `t` is past every
/// stop), but never the first stop, so a segment always has a stop before it.
pub open spec fn segment_end(times: Seq<u64>, t: u64) -> usize {
    let found = choose|i: int| 0 <= i < times.len() && times[i] >= t && (forall|j: int| 0 <= j < i ==> times[j] < t);
    let hi = if exists|i: int| 0 <= i < times.len() && times[i] >= t { found } else { times.len() - 1 };
    (if hi >= 1 { hi } else { 1 }) as usize
}

impl StopTimes {
    /// The stops are in strictly increasing order.
    #[verifier::type_invariant]
    spec fn ordered(self) -> bool {
        increasing(self.times@)
    }

    /// No stops.
    pub fn new() -> (s: Self)
        ensures
            s@ == Seq::<u64>::empty(),
    {
        StopTimes { times: Vec::new() }
    }

    /// The stops' frame offsets, in increasing order.
    pub fn times(&self) -> (r: &[u64])
        ensures
            r@ == self@,
            increasing(self@),
    {
        proof {
            use_type_invariant(self);
        }
        self.times.as_slice()
    }

    /// Place a stop at frame `at`: when one is already there it is replaced
    /// and the times stay as they are; otherwise `at` is inserted before the
    /// first later stop. Says which happened and at what index.
    pub fn place(&mut self, at: u64) -> (r: StopPlace)
        ensures
            increasing(final(self)@),
            match r {
                StopPlace::Replace(i) => i < old(self)@.len() && old(self)@[i as int] == at
                    && final(self)@ == old(self)@,
                StopPlace::Insert(i) => i <= old(self)@.len() && !old(self)@.contains(at)
                    && final(self)@ == old(self)@.insert(i as int, at)
                    && (forall|j: int| 0 <= j < i ==> old(self)@[j] < at)
                    && (forall|j: int| i <= j < old(self)@.len() ==> old(self)@[j] > at),
            },
    {
        proof {
            use_type_invariant(&*self);
        }
        let mut i: usize = 0;
        while i < self.times.len() && self.times[i] < at
            invariant
                i <= self.times@.len(),
                increasing(self.times@),
                forall|j: int| 0 <= j < i ==> self.times@[j] < at,
            decreases self.times@.len() - i,
        {
            i = i + 1;
        }
        if i < self.times.len() && self.times[i] == at {
            return StopPlace::Replace(i);
        }
        proof {
            assert forall|j: int| i <= j < self.times@.len() implies self.times@[j] > at by {
                assert(self.times@[i as int] > at);
                if j > i {
                    assert(self.times@[i as int] < self.times@[j]);
                }
            }
            assert(!self.times@.contains(at)) by {
                if self.times@.contains(at) {
                    let k = choose|k: int| 0 <= k < self.times@.len() && self.times@[k] == at;
                    assert(k < i || k >= i);
                }
            }
        }
        let ghost before = self.times@;
        let mut times = Vec::new();
        std::mem::swap(&mut times, &mut self.times);
        times.insert(i, at);
        proof {
            assert(times@ == before.insert(i as int, at));
            assert forall|a: int, b: int| 0 <= a < b < times@.len() implies times@[a] < times@[b] by {
                if b < i {
                } else if b == i {
                } else if a < i {
                    assert(times@[b] == before[b - 1]);
                } else if a == i {
                    assert(times@[b] == before[b - 1]);
                } else {
                    assert(times@[a] == before[a - 1] && times@[b] == before[b - 1]);
                }
            }
        }
        self.times = times;
        StopPlace::Insert(i)
    }

    /// The frame offset of the last stop (0 without stops): the length of
    /// one play-through.
    pub fn duration(&self) -> (r: u64)
        ensures
            r == (if self@.len() == 0 { 0 } else { self@.last() }),
    {
        match self.times.last() {
            Some(t) => *t,
            None => 0,
        }
    }

    /// The index of the stop that a sample at local time `t` interpolates
    /// towards, for a timeline of at least two stops.
    pub fn segment(&self, t: u64) -> (r: usize)
        requires
            self@.len() >= 2,
        ensures
            r == segment_end(self@, t),
            1 <= r < self@.len(),
    {
        let n = self.times.len();
        let mut i: usize = 0;
        while i < n && self.times[i] < t
            invariant
                n == self@.len(),
                i <= n,
                forall|j: int| 0 <= j < i ==> self@[j] < t,
            decreases n - i,
        {
            i = i + 1;
        }
        proof {
            if i < n {
                assert(exists|k: int| 0 <= k < self@.len() && self@[k] >= t);
                let found = choose|k: int| 0 <= k < self@.len() && self@[k] >= t && (forall|j: int| 0 <= j < k ==> self@[j] < t);
                assert(0 <= i < self@.len() && self@[i as int] >= t && (forall|j: int| 0 <= j < i ==> self@[j] < t));
                assert(found == i) by {
                    if found < i {
                        assert(self@[found] < t);
                    } else if found > i {
                        assert(self@[i as int] < t);
                    }
                }
            } else {
                assert(!(exists|k: int| 0 <= k < self@.len() && self@[k] >= t)) by {
                    if exists|k: int| 0 <= k < self@.len() && self@[k] >= t {
                        let k = choose|k: int| 0 <= k < self@.len() && self@[k] >= t;
                        assert(self@[k] < t);
                    }
                }
            }
        }
        let hi = if i < n {
            i
        } else {
            n - 1
        };
        if hi >= 1 {
            hi
        } else {
            1
        }
    }
}

/// Placing a stop at a frame that already has one replaces it in place;
/// placing it anywhere else adds exactly one stop. Either way the stops stay
/// in increasing order, so a timeline never holds two stops at one frame.
pub proof fn a_frame_holds_one_stop(before: Seq<u64>, after: Seq<u64>, at: u64, r: StopPlace)
    requires
        increasing(before),
        increasing(after),
        match r {
            StopPlace::Replace(i) => i < before.len() && before[i as int] == at && after == before,
            StopPlace::Insert(i) => i <= before.len() && !before.contains(at) && after
                == before.insert(i as int, at),
        },
    ensures
        after.contains(at),
        after.len() == before.len() + (if before.contains(at) { 0int } else { 1 }),
        forall|i: int, j: int| 0 <= i < after.len() && 0 <= j < after.len() && after[i] == after[j] ==> i == j,
{
    match r {
        StopPlace::Replace(i) => {
            assert(after[i as int] == at);
        },
        StopPlace::Insert(i) => {
            assert(after[i as int] == at);
        },
    }
    assert forall|i: int, j: int| 0 <= i < after.len() && 0 <= j < after.len() && after[i] == after[j] implies i == j by {
        if i < j {
            assert(after[i] < after[j]);
        } else if j < i {
            assert(after[j] < after[i]);
        }
    }
}

} // verus!
