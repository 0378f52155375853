//! Keyframe animations: the time cursor and the choice of the segment to
//! sample. Interpolating between two keyframe values (by their easing) is
//! left to the value type.

use crate::clock::in_bound;
use vstd::prelude::*;

verus! {

/// A keyframe: from `time` on, the animation heads from `value` to the next
/// keyframe's value along easing `tween`.
pub struct Keyframe<T> {
    pub time: i64,
    pub value: T,
    pub tween: u8,
}

impl<T> Keyframe<T> {
    pub fn new(time: i64, value: T, tween: u8) -> (r: Keyframe<T>)
        ensures
            r.time == time,
            r.value == value,
            r.tween == tween,
    {
        Keyframe { time, value, tween }
    }
}

/// What to show at the current time.
#[derive(Debug, Clone, Copy, PartialEq, Eq, Structural)]
pub enum Sample {
    /// No keyframes: no value.
    Empty,
    /// Exactly the value of this keyframe.
    At(usize),
    /// Between keyframe `from` and the next one: `elapsed` of `span`
    /// milliseconds have passed, `0 < elapsed < span`.
    Between { from: usize, elapsed: i64, span: i64 },
}

/// An animation: keyframes sorted by time, the current time and the
/// index of the keyframe the current segment starts at.
pub struct Anim<T> {
    pub time: i64,
    pub keyframes: Vec<Keyframe<T>>,
    pub cursor: usize,
}

pub open spec fn times_of<T>(kfs: Seq<Keyframe<T>>) -> Seq<i64> {
    kfs.map_values(|k: Keyframe<T>| k.time)
}

pub open spec fn sorted_times(ts: Seq<i64>) -> bool {
    forall|i: int, j: int| 0 <= i <= j < ts.len() ==> ts[i] <= ts[j]
}

/// Whether `c` is the segment for time `t`: the last keyframe at or before
/// `t`, or the first keyframe if all come later.
pub open spec fn cursor_fits(ts: Seq<i64>, c: int, t: i64) -> bool {
    &&& 0 <= c < ts.len()
    &&& (c == 0 || ts[c] <= t)
    &&& (c + 1 == ts.len() || ts[c + 1] > t)
}

/// The sample at time `t` with cursor `c`.
pub open spec fn spec_sample(ts: Seq<i64>, c: int, t: i64) -> Sample {
    if ts.len() == 0 {
        Sample::Empty
    } else if c + 1 == ts.len() || t <= ts[c] {
        Sample::At(c as usize)
    } else {
        Sample::Between { from: c as usize, elapsed: (t - ts[c]) as i64, span: (ts[c + 1] - ts[c]) as i64 }
    }
}

impl<T> Anim<T> {
    pub open spec fn times(&self) -> Seq<i64> {
        times_of(self.keyframes@)
    }

    pub open spec fn wf(&self) -> bool {
        &&& sorted_times(self.times())
        &&& forall|i: int| 0 <= i < self.keyframes@.len() ==> in_bound(#[trigger] self.keyframes@[i].time as int)
        &&& in_bound(self.time as int)
        &&& (self.keyframes@.len() == 0 ==> self.cursor == 0)
        &&& (self.keyframes@.len() > 0 ==> cursor_fits(self.times(), self.cursor as int, self.time))
    }

    /// An animation over keyframes sorted by time, at time 0.
    pub fn new(keyframes: Vec<Keyframe<T>>) -> (r: Anim<T>)
        requires
            sorted_times(times_of(keyframes@)),
            forall|i: int| 0 <= i < keyframes@.len() ==> in_bound(#[trigger] keyframes@[i].time as int),
        ensures
            r.wf(),
            r.keyframes@ == keyframes@,
            r.time == 0,
    {
        let mut a = Anim { time: 0, keyframes, cursor: 0 };
        a.seek_cursor(0);
        a
    }

    /// An animation that holds one value.
    pub fn fixed(value: T) -> (r: Anim<T>)
        ensures
            r.wf(),
            r.keyframes@.len() == 1,
            r.keyframes@[0].value == value,
            r.keyframes@[0].time == 0,
            r.time == 0,
            r.cursor == 0,
    {
        let mut keyframes: Vec<Keyframe<T>> = Vec::new();
        keyframes.push(Keyframe { time: 0, value, tween: 0 });
        Anim { time: 0, keyframes, cursor: 0 }
    }

    /// Moves the cursor to the segment of `time`, scanning from where it
    /// stands: forward while the next keyframe has begun, back while the
    /// current one has not.
    fn seek_cursor(&mut self, time: i64)
        requires
            sorted_times(times_of(old(self).keyframes@)),
            old(self).cursor < old(self).keyframes@.len() || old(self).cursor == 0,
        ensures
            final(self).keyframes == old(self).keyframes,
            final(self).time == old(self).time,
            final(self).keyframes@.len() == 0 ==> final(self).cursor == 0,
            final(self).keyframes@.len() > 0 ==> cursor_fits(final(self).times(), final(self).cursor as int, time),
            final(self).keyframes@.len() > 0 && old(self).keyframes@[old(self).cursor as int].time <= time
                ==> final(self).cursor >= old(self).cursor,
    {
        let n = self.keyframes.len();
        if n == 0 {
            return;
        }
        let ghost ts = self.times();
        let ghost c0 = self.cursor as int;
        while self.cursor + 1 < n && self.keyframes[self.cursor + 1].time <= time
            invariant
                n == self.keyframes@.len(),
                ts == self.times(),
                self.keyframes == old(self).keyframes,
                self.time == old(self).time,
                sorted_times(ts),
                c0 <= self.cursor < n,
                c0 == old(self).cursor,
                self.cursor > c0 ==> ts[self.cursor as int] <= time,
            decreases n - self.cursor,
        {
            self.cursor = self.cursor + 1;
        }
        let ghost c1 = self.cursor as int;
        while self.cursor != 0 && self.keyframes[self.cursor].time > time
            invariant
                n == self.keyframes@.len(),
                ts == self.times(),
                self.keyframes == old(self).keyframes,
                self.time == old(self).time,
                sorted_times(ts),
                0 <= self.cursor <= c1 < n,
                c0 <= c1,
                c0 == old(self).cursor,
                c1 > c0 ==> ts[c1] <= time,
                c1 + 1 == n || ts[c1 + 1] > time,
                self.cursor < c1 ==> ts[self.cursor + 1] > time,
                self.cursor == c1 || ts[c0] > time,
            decreases self.cursor,
        {
            self.cursor = self.cursor - 1;
        }
        proof {
            assert(ts[self.cursor as int] == self.keyframes@[self.cursor as int].time);
        }
    }

    /// Sets the current time and moves the cursor to its segment.
    pub fn set_time(&mut self, time: i64)
        requires
            old(self).wf(),
            in_bound(time as int),
        ensures
            final(self).wf(),
            final(self).keyframes == old(self).keyframes,
            final(self).time == time,
            old(self).keyframes@.len() > 0 && old(self).time <= time ==> final(self).cursor >= old(self).cursor,
    {
        self.seek_cursor(time);
        self.time = time;
    }

    /// The segment to show at the current time.
    pub fn now_sample(&self) -> (r: Sample)
        requires
            self.wf(),
        ensures
            r == spec_sample(self.times(), self.cursor as int, self.time),
    {
        let n = self.keyframes.len();
        if n == 0 {
            return Sample::Empty;
        }
        let c = self.cursor;
        let kt = self.keyframes[c].time;
        if c + 1 == n || self.time <= kt {
            Sample::At(c)
        } else {
            let nt = self.keyframes[c + 1].time;
            Sample::Between { from: c, elapsed: self.time - kt, span: nt - kt }
        }
    }
}

/// An animation with its chain: the value shown is the sum of one sample
/// of each link, the first link being the base animation. An empty base
/// shows nothing.
pub struct AnimChain<T> {
    pub links: Vec<Anim<T>>,
}

impl<T> AnimChain<T> {
    pub open spec fn wf(&self) -> bool {
        forall|i: int| 0 <= i < self.links@.len() ==> (#[trigger] self.links@[i]).wf()
    }

    pub fn new(links: Vec<Anim<T>>) -> (r: AnimChain<T>)
        requires
            forall|i: int| 0 <= i < links@.len() ==> (#[trigger] links@[i]).wf(),
        ensures
            r.wf(),
            r.links@ == links@,
    {
        AnimChain { links }
    }

    /// Sets the time of every link.
    pub fn set_time(&mut self, time: i64)
        requires
            old(self).wf(),
            in_bound(time as int),
        ensures
            final(self).wf(),
            final(self).links@.len() == old(self).links@.len(),
            forall|i: int|
                0 <= i < old(self).links@.len() ==> {
                    let o = #[trigger] old(self).links@[i];
                    let f = final(self).links@[i];
                    &&& f.keyframes == o.keyframes
                    &&& f.time == time
                    &&& (o.keyframes@.len() > 0 && o.time <= time ==> f.cursor >= o.cursor)
                },
    {
        let mut i: usize = 0;
        while i < self.links.len()
            invariant
                in_bound(time as int),
                0 <= i <= self.links@.len(),
                self.links@.len() == old(self).links@.len(),
                forall|j: int| 0 <= j < self.links@.len() ==> (#[trigger] self.links@[j]).wf(),
                forall|j: int| i <= j < self.links@.len() ==> self.links@[j] == old(self).links@[j],
                forall|j: int|
                    0 <= j < i ==> {
                        let o = #[trigger] old(self).links@[j];
                        let f = self.links@[j];
                        &&& f.keyframes == o.keyframes
                        &&& f.time == time
                        &&& (o.keyframes@.len() > 0 && o.time <= time ==> f.cursor >= o.cursor)
                    },
            decreases self.links@.len() - i,
        {
            self.links[i].set_time(time);
            i = i + 1;
        }
    }

    /// One sample per link, in chain order; `None` when the base is empty.
    pub fn now_samples(&self) -> (r: Option<Vec<Sample>>)
        requires
            self.wf(),
        ensures
            (self.links@.len() == 0 || self.links@[0].keyframes@.len() == 0) <==> r is None,
            r matches Some(v) ==> v@.len() == self.links@.len() && forall|i: int|
                0 <= i < self.links@.len() ==> v@[i] == spec_sample(
                    (#[trigger] self.links@[i]).times(),
                    self.links@[i].cursor as int,
                    self.links@[i].time,
                ),
    {
        if self.links.len() == 0 || self.links[0].keyframes.len() == 0 {
            return None;
        }
        let mut out: Vec<Sample> = Vec::new();
        let mut i: usize = 0;
        while i < self.links.len()
            invariant
                self.wf(),
                0 <= i <= self.links@.len(),
                out@.len() == i,
                forall|j: int|
                    0 <= j < i ==> out@[j] == spec_sample(
                        (#[trigger] self.links@[j]).times(),
                        self.links@[j].cursor as int,
                        self.links@[j].time,
                    ),
            decreases self.links@.len() - i,
        {
            out.push(self.links[i].now_sample());
            i = i + 1;
        }
        Some(out)
    }
}

/// At or before the first keyframe an animation shows the first keyframe
/// (when no other keyframe shares its time), and at or after the last
/// keyframe it shows the last one.
pub proof fn lemma_sample_at_ends(ts: Seq<i64>, c: int, t: i64)
    requires
        sorted_times(ts),
        ts.len() > 0,
        cursor_fits(ts, c, t),
    ensures
        t <= ts[0] && (ts.len() == 1 || ts[1] > ts[0]) ==> spec_sample(ts, c, t) == Sample::At(0),
        t >= ts[ts.len() - 1] ==> spec_sample(ts, c, t) == Sample::At((ts.len() - 1) as usize),
{
    if t <= ts[0] && (ts.len() == 1 || ts[1] > ts[0]) {
        if c > 0 {
            assert(ts[1] <= ts[c]);
        }
    }
    if t >= ts[ts.len() - 1] {
        if c + 1 < ts.len() {
            assert(ts[c + 1] <= ts[ts.len() - 1]);
        }
    }
}

/// Under non-decreasing times the segment cursor never moves backward.
pub proof fn lemma_cursor_monotone(ts: Seq<i64>, c1: int, t1: i64, c2: int, t2: i64)
    requires
        sorted_times(ts),
        cursor_fits(ts, c1, t1),
        cursor_fits(ts, c2, t2),
        t1 <= t2,
    ensures
        c1 <= c2,
{
    if c1 > c2 {
        assert(ts[c2 + 1] <= ts[c1]);
    }
}

} // verus!
