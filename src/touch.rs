//! The touch overlay of a scene: which fingers are down, the path each has
//! drawn, and how long a lifted finger stays visible.
//!
//! The game server sends a finger's id bitwise inverted (a negative id) to
//! say that the finger was lifted.

use vstd::prelude::*;

verus! {

/// How long a lifted finger fades out.
pub const TOUCH_FADE_TIME: i64 = 300;

/// Opacity of a pressed finger, in thousandths.
pub const TOUCH_ALPHA: i64 = 600;

/// A finger without news for this long is taken as lifted.
pub const TOUCH_STALE: i64 = 2000;

/// One finger in a touch frame; positions are in the server's fixed-point
/// screen units.
#[derive(Debug, Clone, Copy, PartialEq, Eq, Structural)]
pub struct TouchPoint {
    pub finger: i8,
    pub x: i32,
    pub y: i32,
}

/// The fingers of one moment of a player's game.
#[derive(Debug, Clone)]
pub struct TouchFrame {
    pub time: i64,
    pub points: Vec<TouchPoint>,
}

/// A sample of a finger's path: time, x, y.
pub type Sample = (i64, i32, i32);

/// A finger on screen, or fading out once lifted.
#[derive(Debug)]
pub struct ActiveTouch {
    pub finger: i8,
    pub path: Vec<Sample>,
    pub start_time: i64,
    pub last_update: i64,
    /// When the finger was lifted, if it was.
    pub end_time: Option<i64>,
}

/// A finger as a mathematical value.
pub type TouchView = (i8, Seq<Sample>, i64, i64, Option<i64>);

impl ActiveTouch {
    pub open spec fn view(&self) -> TouchView {
        (self.finger, self.path@, self.start_time, self.last_update, self.end_time)
    }
}

pub open spec fn views(s: Seq<ActiveTouch>) -> Seq<TouchView> {
    s.map_values(|a: ActiveTouch| a.view())
}

pub open spec fn fingers(s: Seq<TouchView>) -> Seq<i8> {
    s.map_values(|a: TouchView| a.0)
}

/// The finger a lifted-finger id stands for: the id bitwise inverted.
pub open spec fn lifted_finger(id: i8) -> i8 {
    (-(id as int) - 1) as i8
}

/// The touches after one point of a frame at `time`: a lifted finger moves
/// to the fading touches with its end time; a pressed finger extends its
/// path, and a new finger starts one.
pub open spec fn apply_point(active: Seq<TouchView>, fading: Seq<TouchView>, p: TouchPoint, time: i64) -> (
    Seq<TouchView>,
    Seq<TouchView>,
) {
    if p.finger < 0 {
        let f = lifted_finger(p.finger);
        if fingers(active).contains(f) {
            let k = fingers(active).index_of(f);
            let a = active[k];
            (active.remove(k), fading.push((a.0, a.1, a.2, a.3, Some(time))))
        } else {
            (active, fading)
        }
    } else if fingers(active).contains(p.finger) {
        let k = fingers(active).index_of(p.finger);
        let a = active[k];
        (active.update(k, (a.0, a.1.push((time, p.x, p.y)), a.2, time, None)), fading)
    } else {
        (active.push((p.finger, seq![(time, p.x, p.y)], time, time, None)), fading)
    }
}

/// The first `n` points of a frame applied in order.
pub open spec fn apply_points(
    active: Seq<TouchView>,
    fading: Seq<TouchView>,
    ps: Seq<TouchPoint>,
    time: i64,
    n: nat,
) -> (Seq<TouchView>, Seq<TouchView>)
    decreases n,
{
    if n == 0 || n > ps.len() {
        (active, fading)
    } else {
        let prev = apply_points(active, fading, ps, time, (n - 1) as nat);
        apply_point(prev.0, prev.1, ps[n - 1], time)
    }
}

/// The first `n` frames applied in order.
pub open spec fn apply_frames(
    active: Seq<TouchView>,
    fading: Seq<TouchView>,
    frames: Seq<TouchFrame>,
    n: nat,
) -> (Seq<TouchView>, Seq<TouchView>)
    decreases n,
{
    if n == 0 || n > frames.len() {
        (active, fading)
    } else {
        let prev = apply_frames(active, fading, frames, (n - 1) as nat);
        let f = frames[n - 1];
        apply_points(prev.0, prev.1, f.points@, f.time, f.points@.len())
    }
}

/// The opacity of a touch at time `t`, in thousandths: full while pressed,
/// falling linearly to nothing over the fade time once lifted; `None` when
/// it is not drawn (before it began, or faded out).
pub open spec fn spec_alpha(a: TouchView, t: i64) -> Option<i64> {
    if t < a.2 {
        None
    } else {
        match a.4 {
            None => Some(TOUCH_ALPHA),
            Some(e) => if t < e {
                Some(TOUCH_ALPHA)
            } else if t - e >= TOUCH_FADE_TIME {
                None
            } else {
                Some((TOUCH_ALPHA * (TOUCH_FADE_TIME - (t - e)) / (TOUCH_FADE_TIME as int)) as i64)
            },
        }
    }
}

/// The touches of a scene.
#[derive(Debug)]
pub struct TouchOverlay {
    pub active: Vec<ActiveTouch>,
    pub fading: Vec<ActiveTouch>,
}

impl TouchOverlay {
    /// At most one active touch per finger.
    pub open spec fn wf(&self) -> bool {
        fingers(views(self.active@)).no_duplicates()
    }

    pub open spec fn active_view(&self) -> Seq<TouchView> {
        views(self.active@)
    }

    pub open spec fn fading_view(&self) -> Seq<TouchView> {
        views(self.fading@)
    }

    pub fn new() -> (r: TouchOverlay)
        ensures
            r.wf(),
            r.active@.len() == 0,
            r.fading@.len() == 0,
    {
        TouchOverlay { active: Vec::new(), fading: Vec::new() }
    }

    fn find(&self, f: i8) -> (r: Option<usize>)
        requires
            self.wf(),
        ensures
            match r {
                Some(k) => k < self.active@.len() && self.active@[k as int].finger == f
                    && fingers(self.active_view()).contains(f) && fingers(self.active_view()).index_of(f) == k,
                None => !fingers(self.active_view()).contains(f),
            },
    {
        let ghost fs = fingers(self.active_view());
        let mut k: usize = 0;
        while k < self.active.len()
            invariant
                0 <= k <= self.active@.len(),
                fs == fingers(self.active_view()),
                fs.len() == self.active@.len(),
                fs.no_duplicates(),
                forall|j: int| 0 <= j < k ==> fs[j] != f,
            decreases self.active@.len() - k,
        {
            proof {
                assert(fs[k as int] == self.active@[k as int].finger);
            }
            if self.active[k].finger == f {
                proof {
                    assert(fs[k as int] == f);
                    assert(fs.contains(f));
                    let c = fs.index_of(f);
                    assert(fs[c] == f);
                    assert(c == k);
                }
                return Some(k);
            }
            k = k + 1;
        }
        None
    }

    /// Takes in one point of a frame at `time`.
    pub fn push_point(&mut self, p: TouchPoint, time: i64)
        requires
            old(self).wf(),
        ensures
            final(self).wf(),
            (final(self).active_view(), final(self).fading_view()) == apply_point(
                old(self).active_view(),
                old(self).fading_view(),
                p,
                time,
            ),
    {
        let ghost a0 = self.active_view();
        let ghost f0 = self.fading_view();
        if p.finger < 0 {
            let pf: i8 = p.finger;
            let f: i8 = !pf;
            assert(f == lifted_finger(pf)) by (bit_vector)
                requires
                    f == !pf,
            ;
            match self.find(f) {
                Some(k) => {
                    let mut t = self.active.remove(k);
                    t.end_time = Some(time);
                    self.fading.push(t);
                    proof {
                        assert(self.active_view() =~= a0.remove(k as int));
                        assert(self.fading_view() =~= f0.push((a0[k as int].0, a0[k as int].1, a0[k as int].2, a0[k as int].3, Some(time))));
                        lemma_remove_keeps_distinct(fingers(a0), k as int);
                        assert(fingers(self.active_view()) =~= fingers(a0).remove(k as int));
                    }
                },
                None => {},
            }
        } else {
            match self.find(p.finger) {
                Some(k) => {
                    self.active[k].path.push((time, p.x, p.y));
                    self.active[k].last_update = time;
                    self.active[k].end_time = None;
                    proof {
                        let a = a0[k as int];
                        assert(self.active_view() =~= a0.update(k as int, (a.0, a.1.push((time, p.x, p.y)), a.2, time, None)));
                        assert(fingers(self.active_view()) =~= fingers(a0));
                    }
                },
                None => {
                    let mut path: Vec<Sample> = Vec::new();
                    path.push((time, p.x, p.y));
                    self.active.push(ActiveTouch {
                        finger: p.finger,
                        path,
                        start_time: time,
                        last_update: time,
                        end_time: None,
                    });
                    proof {
                        assert(path@ =~= seq![(time, p.x, p.y)]);
                        assert(self.active_view() =~= a0.push((p.finger, seq![(time, p.x, p.y)], time, time, None)));
                        assert(fingers(self.active_view()) =~= fingers(a0).push(p.finger));
                        lemma_push_keeps_distinct(fingers(a0), p.finger);
                    }
                },
            }
        }
    }

    /// Takes in a frame: its points in order, all at the frame's time.
    pub fn push_frame(&mut self, frame: &TouchFrame)
        requires
            old(self).wf(),
        ensures
            final(self).wf(),
            (final(self).active_view(), final(self).fading_view()) == apply_points(
                old(self).active_view(),
                old(self).fading_view(),
                frame.points@,
                frame.time,
                frame.points@.len(),
            ),
    {
        let mut i: usize = 0;
        while i < frame.points.len()
            invariant
                self.wf(),
                0 <= i <= frame.points@.len(),
                (self.active_view(), self.fading_view()) == apply_points(
                    old(self).active_view(),
                    old(self).fading_view(),
                    frame.points@,
                    frame.time,
                    i as nat,
                ),
            decreases frame.points@.len() - i,
        {
            self.push_point(frame.points[i], frame.time);
            i = i + 1;
        }
    }

    /// Moves touches without news for `TOUCH_STALE` to the fading ones,
    /// ending at `t`, and drops fading touches that have faded out.
    pub fn sweep(&mut self, t: i64)
        requires
            old(self).wf(),
        ensures
            final(self).wf(),
            final(self).active_view() == kept_of(old(self).active_view(), t),
            final(self).fading_view() == fresh_of(old(self).fading_view() + swept_of(old(self).active_view(), t), t),
    {
        let mut rest: Vec<ActiveTouch> = Vec::new();
        std::mem::swap(&mut rest, &mut self.active);
        let ghost a0 = views(rest@);
        assert(rest@.len() == a0.len());
        let ghost f0 = self.fading_view();
        let ghost mut i: int = 0;
        while rest.len() > 0
            invariant
                0 <= i <= a0.len(),
                views(rest@) == a0.skip(i),
                rest@.len() == a0.len() - i,
                self.active_view() == kept_of(a0.take(i), t),
                self.fading_view() == f0 + swept_of(a0.take(i), t),
                fingers(a0).no_duplicates(),
                fingers(self.active_view()).no_duplicates(),
                forall|x: i8| fingers(self.active_view()).contains(x) ==> fingers(a0.take(i)).contains(x),
            decreases rest@.len(),
        {
            proof {
                assert(a0.skip(i)[0] == a0[i]);
                assert(a0.take(i + 1).drop_last() =~= a0.take(i));
                assert(a0.take(i + 1).last() == a0[i]);
            }
            let ghost r0 = rest@;
            let mut x = rest.remove(0);
            let ghost xv = x.view();
            proof {
                assert(xv == views(r0)[0]);
                assert(xv == a0[i]);
                assert(views(rest@) =~= views(r0).skip(1));
            }
            if (t as i128) - (x.last_update as i128) > TOUCH_STALE as i128 {
                let ghost fb = self.fading_view();
                x.end_time = Some(t);
                self.fading.push(x);
                proof {
                    assert(self.fading_view() =~= fb.push((xv.0, xv.1, xv.2, xv.3, Some(t))));
                    assert(swept_of(a0.take(i + 1), t) =~= swept_of(a0.take(i), t) + seq![(xv.0, xv.1, xv.2, xv.3, Some(t))]);
                    assert(kept_of(a0.take(i + 1), t) =~= kept_of(a0.take(i), t) + Seq::<TouchView>::empty());
                    assert(self.fading_view() =~= f0 + swept_of(a0.take(i + 1), t));
                    assert(self.active_view() =~= kept_of(a0.take(i + 1), t));
                    assert forall|y: i8| fingers(self.active_view()).contains(y) implies fingers(a0.take(i + 1)).contains(y) by {
                        let j = choose|j: int| 0 <= j < fingers(a0.take(i)).len() && fingers(a0.take(i))[j] == y;
                        assert(fingers(a0.take(i + 1))[j] == y);
                    }
                }
            } else {
                let ghost before = self.active_view();
                self.active.push(x);
                proof {
                    assert(self.active_view() =~= before.push(xv));
                    assert(kept_of(a0.take(i + 1), t) =~= kept_of(a0.take(i), t) + seq![xv]);
                    assert(swept_of(a0.take(i + 1), t) =~= swept_of(a0.take(i), t) + Seq::<TouchView>::empty());
                    assert(self.active_view() =~= kept_of(a0.take(i + 1), t));
                    assert(self.fading_view() =~= f0 + swept_of(a0.take(i + 1), t));
                    assert(!fingers(before).contains(xv.0)) by {
                        if fingers(before).contains(xv.0) {
                            assert(fingers(a0.take(i)).contains(xv.0));
                            let j = choose|j: int| 0 <= j < fingers(a0.take(i)).len() && fingers(a0.take(i))[j] == xv.0;
                            assert(fingers(a0)[j] == fingers(a0)[i]);
                        }
                    }
                    assert(fingers(self.active_view()) =~= fingers(before).push(xv.0));
                    lemma_push_keeps_distinct(fingers(before), xv.0);
                    assert forall|y: i8| fingers(self.active_view()).contains(y) implies fingers(a0.take(i + 1)).contains(y) by {
                        let j = choose|j: int| 0 <= j < fingers(self.active_view()).len() && fingers(self.active_view())[j] == y;
                        if j < before.len() {
                            assert(fingers(before)[j] == y);
                            assert(fingers(before).contains(y));
                            assert(fingers(a0.take(i)).contains(y));
                            let jj = choose|jj: int| 0 <= jj < fingers(a0.take(i)).len() && fingers(a0.take(i))[jj] == y;
                            assert(a0.take(i + 1)[jj] == a0.take(i)[jj]);
                            assert(fingers(a0.take(i + 1))[jj] == y);
                        } else {
                            assert(fingers(a0.take(i + 1))[i] == y);
                        }
                    }
                }
            }
            proof {
                assert(views(r0).skip(1) =~= a0.skip(i + 1));
                i = i + 1;
            }
        }
        proof {
            assert(a0.take(i) =~= a0);
        }
        let mut old_fading: Vec<ActiveTouch> = Vec::new();
        std::mem::swap(&mut old_fading, &mut self.fading);
        let ghost g0 = views(old_fading@);
        assert(old_fading@.len() == g0.len());
        let ghost mut j: int = 0;
        while old_fading.len() > 0
            invariant
                0 <= j <= g0.len(),
                views(old_fading@) == g0.skip(j),
                old_fading@.len() == g0.len() - j,
                self.fading_view() == fresh_of(g0.take(j), t),
                self.active_view() == kept_of(a0, t),
                fingers(self.active_view()).no_duplicates(),
            decreases old_fading@.len(),
        {
            proof {
                assert(g0.skip(j)[0] == g0[j]);
                assert(g0.take(j + 1).drop_last() =~= g0.take(j));
                assert(g0.take(j + 1).last() == g0[j]);
            }
            let ghost r0 = old_fading@;
            let x = old_fading.remove(0);
            let ghost before = self.fading_view();
            proof {
                assert(x.view() == views(r0)[0]);
                assert(x.view() == g0[j]);
                assert(views(old_fading@) =~= views(r0).skip(1));
                assert(views(r0).skip(1) =~= g0.skip(j + 1));
            }
            let gone = match x.end_time {
                Some(e) => (t as i128) > (e as i128) + TOUCH_FADE_TIME as i128,
                None => false,
            };
            if !gone {
                self.fading.push(x);
                proof {
                    assert(self.fading_view() =~= before.push(x.view()));
                }
            }
            proof {
                assert(self.fading_view() =~= fresh_of(g0.take(j + 1), t));
                j = j + 1;
            }
        }
        proof {
            assert(g0.take(j) =~= g0);
        }
    }
}

/// Whether a touch has had no news for too long at `t`.
pub open spec fn is_stale(a: TouchView, t: i64) -> bool {
    t - a.3 > TOUCH_STALE
}

/// Whether a lifted touch has faded out at `t`.
pub open spec fn faded_out(a: TouchView, t: i64) -> bool {
    match a.4 {
        Some(e) => t > e + TOUCH_FADE_TIME,
        None => false,
    }
}

/// The touches that stay active at `t`, in order.
pub open spec fn kept_of(s: Seq<TouchView>, t: i64) -> Seq<TouchView>
    decreases s.len(),
{
    if s.len() == 0 {
        seq![]
    } else {
        kept_of(s.drop_last(), t) + if is_stale(s.last(), t) {
            seq![]
        } else {
            seq![s.last()]
        }
    }
}

/// The stale touches, in order, ended at `t`.
pub open spec fn swept_of(s: Seq<TouchView>, t: i64) -> Seq<TouchView>
    decreases s.len(),
{
    if s.len() == 0 {
        seq![]
    } else {
        let a = s.last();
        swept_of(s.drop_last(), t) + if is_stale(a, t) {
            seq![(a.0, a.1, a.2, a.3, Some(t))]
        } else {
            seq![]
        }
    }
}

/// The touches that have not faded out at `t`, in order.
pub open spec fn fresh_of(s: Seq<TouchView>, t: i64) -> Seq<TouchView>
    decreases s.len(),
{
    if s.len() == 0 {
        seq![]
    } else {
        fresh_of(s.drop_last(), t) + if faded_out(s.last(), t) {
            seq![]
        } else {
            seq![s.last()]
        }
    }
}

/// The opacity of a touch at `t`, in thousandths (see `spec_alpha`).
pub fn touch_alpha(a: &ActiveTouch, t: i64) -> (r: Option<i64>)
    ensures
        r == spec_alpha(a.view(), t),
{
    if t < a.start_time {
        return None;
    }
    match a.end_time {
        None => Some(TOUCH_ALPHA),
        Some(e) => {
            if t < e {
                Some(TOUCH_ALPHA)
            } else if (t as i128) - (e as i128) >= TOUCH_FADE_TIME as i128 {
                None
            } else {
                let d = t - e;
                Some(TOUCH_ALPHA * (TOUCH_FADE_TIME - d) / TOUCH_FADE_TIME)
            }
        },
    }
}

proof fn lemma_remove_keeps_distinct(s: Seq<i8>, k: int)
    requires
        s.no_duplicates(),
        0 <= k < s.len(),
    ensures
        s.remove(k).no_duplicates(),
{
    let r = s.remove(k);
    assert forall|i: int, j: int| 0 <= i < r.len() && 0 <= j < r.len() && i != j implies r[i] != r[j] by {
        let oi = if i < k { i } else { i + 1 };
        let oj = if j < k { j } else { j + 1 };
        assert(r[i] == s[oi]);
        assert(r[j] == s[oj]);
    }
}

proof fn lemma_push_keeps_distinct(s: Seq<i8>, x: i8)
    requires
        s.no_duplicates(),
        !s.contains(x),
    ensures
        s.push(x).no_duplicates(),
{
    let r = s.push(x);
    assert forall|i: int, j: int| 0 <= i < r.len() && 0 <= j < r.len() && i != j implies r[i] != r[j] by {
        if i < s.len() && j < s.len() {
            assert(r[i] == s[i] && r[j] == s[j]);
        } else if i < s.len() {
            assert(r[i] == s[i]);
        } else {
            assert(r[j] == s[j]);
        }
    }
}

} // verus!
