//! The chart as the judge pass sees it, and the judge pass of one frame:
//! upstream events first, then the per-note state machine.

use crate::judge::{
    is_unjudged, note_step, JudgeMode, MpJudgement, upstream_step, JudgeEvent, JudgeEventKind, JudgeStatus, Judgement, Note,
    UpstreamJudge, STALE_LIMIT, UNJUDGED_LIMIT,
};
use crate::info::UIElement;
use crate::viewport::Ratio;
use std::collections::VecDeque;
use vstd::prelude::*;

verus! {

/// A judge line: its notes, in chart order.
#[derive(Debug)]
pub struct JudgeLine {
    pub notes: Vec<Note>,
    /// Drawing layer: lower is drawn first.
    pub z_index: i32,
    /// The UI element the line is attached to, if any; such a line is drawn
    /// with that element, not with the chart.
    pub attach_ui: Option<UIElement>,
}

impl JudgeLine {
    /// A line of the given notes on layer 0, attached to nothing.
    pub fn new(notes: Vec<Note>) -> (r: JudgeLine)
        ensures
            r.notes@ == notes@,
            r.z_index == 0,
            r.attach_ui is None,
    {
        JudgeLine { notes, z_index: 0, attach_ui: None }
    }
}

/// Whether line `a` is drawn before line `b`: by layer, then by index.
pub open spec fn drawn_before(ls: Seq<JudgeLine>, a: int, b: int) -> bool {
    ls[a].z_index < ls[b].z_index || (ls[a].z_index == ls[b].z_index && a < b)
}

/// The lines of a chart.
#[derive(Debug)]
pub struct Chart {
    pub lines: Vec<JudgeLine>,
}

/// The notes of each line.
pub type ChartModel = Seq<Seq<Note>>;

/// How many of the first `upto` notes are live (not fake).
pub open spec fn live_in_line(ns: Seq<Note>, upto: int) -> nat
    decreases upto,
{
    if upto <= 0 {
        0
    } else {
        live_in_line(ns, upto - 1) + if ns[upto - 1].fake {
            0nat
        } else {
            1nat
        }
    }
}

/// How many notes of the first `upto` lines are live.
pub open spec fn live_in_chart(c: ChartModel, upto: int) -> nat
    decreases upto,
{
    if upto <= 0 {
        0
    } else {
        live_in_chart(c, upto - 1) + live_in_line(c[upto - 1], c[upto - 1].len() as int)
    }
}

impl Chart {
    pub open spec fn model(&self) -> ChartModel {
        self.lines@.map_values(|l: JudgeLine| l.notes@)
    }

    /// The drawing order of the lines: the indices of the lines attached to
    /// no UI element, by layer, lines of one layer in chart order.
    pub fn order(&self) -> (r: Vec<usize>)
        ensures
            forall|k: int| 0 <= k < r@.len() ==> (#[trigger] r@[k]) < self.lines@.len()
                && self.lines@[r@[k] as int].attach_ui is None,
            forall|i: int|
                0 <= i < self.lines@.len() && (#[trigger] self.lines@[i]).attach_ui is None ==> r@.contains(
                    i as usize,
                ),
            forall|k: int| 0 <= k < r@.len() - 1 ==> drawn_before(self.lines@, #[trigger] r@[k] as int, r@[k + 1] as int),
    {
        let ghost ls = self.lines@;
        let mut out: Vec<usize> = Vec::new();
        let mut i: usize = 0;
        while i < self.lines.len()
            invariant
                ls == self.lines@,
                0 <= i <= ls.len(),
                forall|k: int| 0 <= k < out@.len() ==> (#[trigger] out@[k]) < i && ls[out@[k] as int].attach_ui is None,
                forall|j: int| 0 <= j < i && (#[trigger] ls[j]).attach_ui is None ==> out@.contains(j as usize),
                forall|k: int| 0 <= k < out@.len() - 1 ==> drawn_before(ls, #[trigger] out@[k] as int, out@[k + 1] as int),
            decreases ls.len() - i,
        {
            if self.lines[i].attach_ui.is_none() {
                let z = self.lines[i].z_index;
                let mut p: usize = 0;
                while p < out.len() && self.lines[out[p]].z_index <= z
                    invariant
                        ls == self.lines@,
                        0 <= p <= out@.len(),
                        i < ls.len(),
                        z == ls[i as int].z_index,
                        forall|k: int| 0 <= k < out@.len() ==> (#[trigger] out@[k]) < i,
                        forall|k: int| 0 <= k < p ==> ls[(#[trigger] out@[k]) as int].z_index <= z,
                    decreases out@.len() - p,
                {
                    p = p + 1;
                }
                let ghost o = out@;
                out.insert(p, i);
                proof {
                    assert(out@ == o.insert(p as int, i));
                    assert forall|k: int| 0 <= k < out@.len() - 1 implies drawn_before(ls, #[trigger] out@[k] as int, out@[k + 1] as int) by {
                        if k < p - 1 {
                            assert(out@[k] == o[k] && out@[k + 1] == o[k + 1]);
                        } else if k == p - 1 {
                            assert(out@[k] == o[k] && out@[k + 1] == i);
                        } else if k == p {
                            assert(out@[k] == i && out@[k + 1] == o[k]);
                            assert(ls[o[k] as int].z_index > z);
                        } else {
                            assert(out@[k] == o[k - 1] && out@[k + 1] == o[k]);
                        }
                    }
                    assert forall|k: int| 0 <= k < out@.len() implies (#[trigger] out@[k]) < i + 1 && ls[out@[k] as int].attach_ui is None by {
                        if k < p {
                            assert(out@[k] == o[k]);
                        } else if k > p {
                            assert(out@[k] == o[k - 1]);
                        }
                    }
                    assert forall|j: int| 0 <= j < i + 1 && (#[trigger] ls[j]).attach_ui is None implies out@.contains(j as usize) by {
                        if j < i {
                            assert(o.contains(j as usize));
                            let k = choose|k: int| 0 <= k < o.len() && o[k] == j as usize;
                            if k < p {
                                assert(out@[k] == j as usize);
                            } else {
                                assert(out@[k + 1] == j as usize);
                            }
                        } else {
                            assert(out@[p as int] == i);
                        }
                    }
                }
            } else {
                proof {
                    assert forall|j: int| 0 <= j < i + 1 && (#[trigger] ls[j]).attach_ui is None implies out@.contains(j as usize) by {
                        if j < i {
                        }
                    }
                }
            }
            i = i + 1;
        }
        out
    }

    pub fn line_count(&self) -> (r: usize)
        ensures
            r == self.lines@.len(),
    {
        self.lines.len()
    }

    /// The number of live notes: fake notes do not count.
    pub fn note_count(&self) -> (r: u64)
        requires
            live_in_chart(self.model(), self.model().len() as int) <= u64::MAX,
        ensures
            r == live_in_chart(self.model(), self.model().len() as int),
    {
        let ghost c = self.model();
        let mut total: u64 = 0;
        let mut l: usize = 0;
        while l < self.lines.len()
            invariant
                c == self.model(),
                0 <= l <= c.len(),
                total == live_in_chart(c, l as int),
                live_in_chart(c, c.len() as int) <= u64::MAX,
            decreases c.len() - l,
        {
            proof {
                lemma_live_in_chart_mono(c, l + 1, c.len() as int);
            }
            let mut n: usize = 0;
            let mut here: u64 = 0;
            while n < self.lines[l].notes.len()
                invariant
                    c == self.model(),
                    0 <= l < c.len(),
                    0 <= n <= c[l as int].len(),
                    here == live_in_line(c[l as int], n as int),
                    total == live_in_chart(c, l as int),
                    total + live_in_line(c[l as int], c[l as int].len() as int) <= u64::MAX,
                decreases c[l as int].len() - n,
            {
                proof {
                    lemma_live_in_line_mono(c[l as int], n + 1, c[l as int].len() as int);
                }
                if !self.lines[l].notes[n].fake {
                    here = here + 1;
                }
                n = n + 1;
            }
            total = total + here;
            l = l + 1;
        }
        total
    }
}

proof fn lemma_live_in_line_mono(ns: Seq<Note>, a: int, b: int)
    requires
        0 <= a <= b <= ns.len(),
    ensures
        live_in_line(ns, a) <= live_in_line(ns, b),
    decreases b - a,
{
    if a < b {
        lemma_live_in_line_mono(ns, a, b - 1);
    }
}

proof fn lemma_live_in_chart_mono(c: ChartModel, a: int, b: int)
    requires
        0 <= a <= b <= c.len(),
    ensures
        live_in_chart(c, a) <= live_in_chart(c, b),
    decreases b - a,
{
    if a < b {
        lemma_live_in_chart_mono(c, a, b - 1);
    }
}

/// `n` with its judge status replaced.
pub open spec fn with_judge(n: Note, s: JudgeStatus) -> Note {
    Note { judge: s, ..n }
}

/// The chart after one upstream event, and the event it gives, if any.
pub open spec fn apply_one(c: ChartModel, ev: UpstreamJudge, t: i64) -> (ChartModel, Seq<JudgeEvent>) {
    let l = ev.line_id as int;
    let n = ev.note_id as int;
    if l < c.len() && n < c[l].len() {
        match upstream_step(c[l][n], ev, t) {
            Some((s, k)) => (
                c.update(l, c[l].update(n, with_judge(c[l][n], s))),
                seq![JudgeEvent { kind: k, line_idx: l as usize, note_idx: n as usize }],
            ),
            None => (c, seq![]),
        }
    } else {
        (c, seq![])
    }
}

/// Upstream events applied in order, with the events they give.
pub open spec fn apply_all(c: ChartModel, evs: Seq<UpstreamJudge>, t: i64) -> (ChartModel, Seq<JudgeEvent>)
    decreases evs.len(),
{
    if evs.len() == 0 {
        (c, seq![])
    } else {
        let prev = apply_all(c, evs.drop_last(), t);
        let cur = apply_one(prev.0, evs.last(), t);
        (cur.0, prev.1 + cur.1)
    }
}

/// How many events at the front of the queue are due at time `t`.
pub open spec fn ready_count(q: Seq<UpstreamJudge>, t: i64) -> nat
    decreases q.len(),
{
    if q.len() == 0 || q[0].time > t {
        0
    } else {
        1 + ready_count(q.skip(1), t)
    }
}

pub open spec fn stepped(n: Note, t: i64, mode: JudgeMode) -> Note {
    with_judge(n, note_step(n, t, mode).0)
}

pub open spec fn event_of(k: Option<JudgeEventKind>, l: int, n: int) -> Seq<JudgeEvent> {
    match k {
        Some(k) => seq![JudgeEvent { kind: k, line_idx: l as usize, note_idx: n as usize }],
        None => seq![],
    }
}

/// Events of the state machine pass over the first `upto` notes of line `l`.
pub open spec fn line_events(l: int, notes: Seq<Note>, upto: int, t: i64, mode: JudgeMode) -> Seq<JudgeEvent>
    decreases upto,
{
    if upto <= 0 {
        seq![]
    } else {
        line_events(l, notes, upto - 1, t, mode) + event_of(
            note_step(notes[upto - 1], t, mode).1,
            l,
            upto - 1,
        )
    }
}

/// Events of the state machine pass over the first `upto` lines.
pub open spec fn chart_events(c: ChartModel, upto: int, t: i64, mode: JudgeMode) -> Seq<JudgeEvent>
    decreases upto,
{
    if upto <= 0 {
        seq![]
    } else {
        chart_events(c, upto - 1, t, mode) + line_events(
            upto - 1,
            c[upto - 1],
            c[upto - 1].len() as int,
            t,
            mode,
        )
    }
}

/// The chart after the state machine pass.
pub open spec fn chart_stepped(c: ChartModel, t: i64, mode: JudgeMode) -> ChartModel {
    c.map_values(|ns: Seq<Note>| ns.map_values(|n: Note| stepped(n, t, mode)))
}

/// The chart after stale cleanup at `player_time`.
pub open spec fn cleared(n: Note, player_time: i64) -> Note {
    if is_unjudged(n) && player_time - n.time > STALE_LIMIT {
        with_judge(n, JudgeStatus::Judged(player_time, Judgement::Miss))
    } else {
        n
    }
}

/// The chart with every note waiting for its judgement.
pub open spec fn chart_reset(c: ChartModel) -> ChartModel {
    c.map_values(|ns: Seq<Note>| ns.map_values(|n: Note| with_judge(n, JudgeStatus::NotJudged)))
}

pub open spec fn chart_cleared(c: ChartModel, player_time: i64) -> ChartModel {
    c.map_values(|ns: Seq<Note>| ns.map_values(|n: Note| cleared(n, player_time)))
}

/// Whether some live note is unjudged and overdue at `t`.
pub open spec fn chart_has_overdue(c: ChartModel, t: i64) -> bool {
    exists|l: int, n: int|
        0 <= l < c.len() && 0 <= n < c[l].len() && is_unjudged(#[trigger] c[l][n]) && t - c[l][n].time
            > UNJUDGED_LIMIT
}

proof fn lemma_ready_count(q: Seq<UpstreamJudge>, t: i64, k: int)
    requires
        0 <= k <= q.len(),
        forall|i: int| 0 <= i < k ==> q[i].time <= t,
        k == q.len() || q[k].time > t,
    ensures
        ready_count(q, t) == k,
    decreases k,
{
    if k > 0 {
        lemma_ready_count(q.skip(1), t, k - 1);
    }
}

/// An upstream event never brings a note back to waiting.
pub proof fn lemma_apply_one_no_overdue(c: ChartModel, ev: UpstreamJudge, t: i64, u: i64)
    requires
        !chart_has_overdue(c, u),
    ensures
        !chart_has_overdue(apply_one(c, ev, t).0, u),
{
    let c1 = apply_one(c, ev, t).0;
    let l = ev.line_id as int;
    let n = ev.note_id as int;
    if l < c.len() && n < c[l].len() {
        assert forall|i: int, j: int|
            0 <= i < c1.len() && 0 <= j < c1[i].len() implies !(is_unjudged(#[trigger] c1[i][j])
            && u - c1[i][j].time > UNJUDGED_LIMIT) by {
            if i == l && j == n {
            } else {
                assert(c1[i][j] == c[i][j]);
            }
        }
    }
}

/// Events applied in order never bring a note back to waiting.
pub proof fn lemma_apply_all_no_overdue(c: ChartModel, evs: Seq<UpstreamJudge>, t: i64, u: i64)
    requires
        !chart_has_overdue(c, u),
    ensures
        !chart_has_overdue(apply_all(c, evs, t).0, u),
    decreases evs.len(),
{
    if evs.len() > 0 {
        lemma_apply_all_no_overdue(c, evs.drop_last(), t, u);
        lemma_apply_one_no_overdue(apply_all(c, evs.drop_last(), t).0, evs.last(), t, u);
    }
}

/// A state machine step never brings a note back to waiting.
pub proof fn lemma_stepped_no_overdue(c: ChartModel, t: i64, mode: JudgeMode, u: i64)
    requires
        !chart_has_overdue(c, u),
    ensures
        !chart_has_overdue(chart_stepped(c, t, mode), u),
{
    let c1 = chart_stepped(c, t, mode);
    assert forall|i: int, j: int|
        0 <= i < c1.len() && 0 <= j < c1[i].len() implies !(is_unjudged(#[trigger] c1[i][j]) && u
        - c1[i][j].time > UNJUDGED_LIMIT) by {
        assert(c1[i][j] == stepped(c[i][j], t, mode));
    }
}

/// Right after stale cleanup at `u`, no note is overdue at `u`.
pub proof fn lemma_cleared_no_overdue(c: ChartModel, u: i64)
    ensures
        !chart_has_overdue(chart_cleared(c, u), u),
{
    let c1 = chart_cleared(c, u);
    assert forall|i: int, j: int|
        0 <= i < c1.len() && 0 <= j < c1[i].len() implies !(is_unjudged(#[trigger] c1[i][j]) && u
        - c1[i][j].time > UNJUDGED_LIMIT) by {
        assert(c1[i][j] == cleared(c[i][j], u));
    }
}

/// The judge pass never makes a note overdue that was not.
pub proof fn lemma_judge_pass_no_overdue(c: ChartModel, q: Seq<UpstreamJudge>, t: i64, advanced: bool, mode: JudgeMode, u: i64)
    requires
        !chart_has_overdue(c, u),
    ensures
        !chart_has_overdue(judge_pass(c, q, t, advanced, mode).0, u),
{
    let evs = q.take(ready_count(q, t) as int);
    lemma_apply_all_no_overdue(c, evs, t, u);
    if advanced {
        lemma_stepped_no_overdue(apply_all(c, evs, t).0, t, mode, u);
    }
}

/// The judge pass of a frame at time `t` over queue `q`: the due events,
/// then, if the time moved forward, one state machine step of every note.
pub open spec fn judge_pass(c: ChartModel, q: Seq<UpstreamJudge>, t: i64, advanced: bool, mode: JudgeMode) -> (ChartModel, Seq<JudgeEvent>) {
    let hooked = apply_all(c, q.take(ready_count(q, t) as int), t);
    if advanced {
        (chart_stepped(hooked.0, t, mode), hooked.1 + chart_events(hooked.0, hooked.0.len() as int, t, mode))
    } else {
        (hooked.0, hooked.1)
    }
}

/// The events among `evs` that name note `n` of line `l`, in order.
pub open spec fn events_for(evs: Seq<JudgeEvent>, l: usize, n: usize) -> Seq<JudgeEvent>
    decreases evs.len(),
{
    if evs.len() == 0 {
        seq![]
    } else {
        events_for(evs.drop_last(), l, n) + if evs.last().line_idx == l && evs.last().note_idx == n {
            seq![evs.last()]
        } else {
            seq![]
        }
    }
}

proof fn lemma_events_for_add(a: Seq<JudgeEvent>, b: Seq<JudgeEvent>, l: usize, n: usize)
    ensures
        events_for(a + b, l, n) == events_for(a, l, n) + events_for(b, l, n),
    decreases b.len(),
{
    if b.len() == 0 {
        assert(a + b =~= a);
        assert(events_for(a, l, n) + events_for(b, l, n) =~= events_for(a, l, n));
    } else {
        lemma_events_for_add(a, b.drop_last(), l, n);
        assert((a + b).drop_last() =~= a + b.drop_last());
        assert((a + b).last() == b.last());
        let tail = if b.last().line_idx == l && b.last().note_idx == n {
            seq![b.last()]
        } else {
            seq![]
        };
        assert(events_for(a, l, n) + events_for(b.drop_last(), l, n) + tail =~= events_for(a, l, n) + (
        events_for(b.drop_last(), l, n) + tail));
    }
}

proof fn lemma_line_events_for(li: int, notes: Seq<Note>, upto: int, t: i64, mode: JudgeMode, l: usize, n: usize)
    requires
        0 <= li,
        li <= usize::MAX,
        upto <= notes.len(),
        notes.len() <= usize::MAX,
    ensures
        events_for(line_events(li, notes, upto, t, mode), l, n) == if li == l && 0 <= n < upto {
            event_of(note_step(notes[n as int], t, mode).1, li, n as int)
        } else {
            seq![]
        },
    decreases upto,
{
    if upto > 0 {
        lemma_line_events_for(li, notes, upto - 1, t, mode, l, n);
        let prev = line_events(li, notes, upto - 1, t, mode);
        let cur = event_of(note_step(notes[upto - 1], t, mode).1, li, upto - 1);
        lemma_events_for_add(prev, cur, l, n);
        let ef = events_for(cur, l, n);
        let hit = li == l && n == upto - 1;
        match note_step(notes[upto - 1], t, mode).1 {
            Some(k) => {
                let x = JudgeEvent { kind: k, line_idx: li as usize, note_idx: (upto - 1) as usize };
                assert(cur == seq![x]);
                assert(cur.drop_last() =~= Seq::<JudgeEvent>::empty());
                assert(cur.last() == x);
                assert(ef == events_for(Seq::<JudgeEvent>::empty(), l, n) + if x.line_idx == l && x.note_idx == n {
                    seq![x]
                } else {
                    seq![]
                });
                if hit {
                    assert(ef =~= cur);
                } else {
                    assert(ef =~= Seq::<JudgeEvent>::empty());
                }
            },
            None => {
                assert(cur =~= Seq::<JudgeEvent>::empty());
                assert(ef =~= Seq::<JudgeEvent>::empty());
            },
        }
        if hit {
            assert(events_for(prev, l, n) =~= Seq::<JudgeEvent>::empty());
            assert(events_for(prev, l, n) + ef =~= ef);
        } else {
            assert(events_for(prev, l, n) + ef =~= events_for(prev, l, n));
        }
    } else {
    }
}

proof fn lemma_chart_events_for(c: ChartModel, upto: int, t: i64, mode: JudgeMode, l: usize, n: usize)
    requires
        upto <= c.len(),
        c.len() <= usize::MAX,
        forall|i: int| 0 <= i < c.len() ==> (#[trigger] c[i]).len() <= usize::MAX,
    ensures
        events_for(chart_events(c, upto, t, mode), l, n) == if 0 <= l < upto && n < c[l as int].len() {
            event_of(note_step(c[l as int][n as int], t, mode).1, l as int, n as int)
        } else {
            seq![]
        },
    decreases upto,
{
    if upto > 0 {
        lemma_chart_events_for(c, upto - 1, t, mode, l, n);
        let prev = chart_events(c, upto - 1, t, mode);
        let cur = line_events(upto - 1, c[upto - 1], c[upto - 1].len() as int, t, mode);
        lemma_events_for_add(prev, cur, l, n);
        lemma_line_events_for(upto - 1, c[upto - 1], c[upto - 1].len() as int, t, mode, l, n);
        if l == upto - 1 {
            assert(events_for(prev, l, n) + events_for(cur, l, n) =~= events_for(cur, l, n));
        } else {
            assert(events_for(prev, l, n) + events_for(cur, l, n) =~= events_for(prev, l, n));
        }
    }
}

/// A perfect judge event for a waiting live note, due at the frame time,
/// judges the note perfect at the event's time, and the frame reports
/// exactly one event for that note: the perfect judgement, which plays the
/// note's hit-sound (its own, else its kind's) and spawns perfect particles.
pub proof fn lemma_perfect_judge_event(c: ChartModel, ev: UpstreamJudge, t: i64, advanced: bool, mode: JudgeMode)
    requires
        ev.judgement == MpJudgement::Perfect,
        ev.time <= t,
        (ev.line_id as int) < c.len(),
        (ev.note_id as int) < c[ev.line_id as int].len(),
        is_unjudged(c[ev.line_id as int][ev.note_id as int]),
        c.len() <= usize::MAX,
        forall|i: int| 0 <= i < c.len() ==> (#[trigger] c[i]).len() <= usize::MAX,
    ensures
        ({
            let l = ev.line_id as usize;
            let n = ev.note_id as usize;
            let pass = judge_pass(c, seq![ev], t, advanced, mode);
            let e = JudgeEvent { kind: JudgeEventKind::Judged(Judgement::Perfect), line_idx: l, note_idx: n };
            &&& pass.0[l as int][n as int] == with_judge(
                c[l as int][n as int],
                JudgeStatus::Judged(ev.time, Judgement::Perfect),
            )
            &&& events_for(pass.1, l, n) == seq![e]
        }),
{
    let l = ev.line_id as usize;
    let n = ev.note_id as usize;
    let q = seq![ev];
    assert(q.skip(1).len() == 0);
    reveal_with_fuel(ready_count, 2);
    reveal_with_fuel(apply_all, 2);
    assert(ready_count(q, t) == 1);
    assert(q.take(1) =~= q);
    assert(q.drop_last() =~= Seq::<UpstreamJudge>::empty());
    let hooked = apply_all(c, q, t);
    let e = JudgeEvent { kind: JudgeEventKind::Judged(Judgement::Perfect), line_idx: l, note_idx: n };
    assert(hooked.1 =~= seq![e]);
    assert(seq![e].drop_last() =~= Seq::<JudgeEvent>::empty());
    assert(seq![e].last() == e);
    assert(events_for(Seq::<JudgeEvent>::empty(), l, n) == Seq::<JudgeEvent>::empty());
    assert(events_for(seq![e], l, n) == events_for(Seq::<JudgeEvent>::empty(), l, n) + seq![e]);
    assert(events_for(seq![e], l, n) =~= seq![e]);
    if advanced {
        let h = hooked.0;
        lemma_events_for_add(hooked.1, chart_events(h, h.len() as int, t, mode), l, n);
        lemma_chart_events_for(h, h.len() as int, t, mode, l, n);
        assert(events_for(seq![e], l, n) + Seq::<JudgeEvent>::empty() =~= seq![e]);
    }
}

/// The judge pass keeps the shape of the chart and every note's kind,
/// time, fakeness and hit-sound; only judge states change.
pub proof fn lemma_judge_pass_shape(c: ChartModel, q: Seq<UpstreamJudge>, t: i64, advanced: bool, mode: JudgeMode)
    ensures
        ({
            let c1 = judge_pass(c, q, t, advanced, mode).0;
            &&& c1.len() == c.len()
            &&& forall|i: int| 0 <= i < c.len() ==> (#[trigger] c1[i]).len() == c[i].len()
            &&& forall|i: int, j: int|
                0 <= i < c.len() && 0 <= j < c[i].len() ==> same_note(#[trigger] c1[i][j], c[i][j])
        }),
{
    let evs = q.take(ready_count(q, t) as int);
    lemma_apply_all_shape(c, evs, t);
    let h = apply_all(c, evs, t).0;
    if advanced {
        let c1 = chart_stepped(h, t, mode);
        assert forall|i: int, j: int| 0 <= i < c.len() && 0 <= j < c[i].len() implies same_note(
            #[trigger] c1[i][j],
            c[i][j],
        ) by {
            assert(same_note(h[i][j], c[i][j]));
            assert(c1[i][j] == stepped(h[i][j], t, mode));
        }
    }
}

/// Two notes that differ at most in their judge state.
pub open spec fn same_note(a: Note, b: Note) -> bool {
    a.kind == b.kind && a.time == b.time && a.fake == b.fake && a.hitsound == b.hitsound
}

proof fn lemma_apply_all_shape(c: ChartModel, evs: Seq<UpstreamJudge>, t: i64)
    ensures
        ({
            let c1 = apply_all(c, evs, t).0;
            &&& c1.len() == c.len()
            &&& forall|i: int| 0 <= i < c.len() ==> (#[trigger] c1[i]).len() == c[i].len()
            &&& forall|i: int, j: int|
                0 <= i < c.len() && 0 <= j < c[i].len() ==> same_note(#[trigger] c1[i][j], c[i][j])
        }),
    decreases evs.len(),
{
    if evs.len() > 0 {
        lemma_apply_all_shape(c, evs.drop_last(), t);
        let p = apply_all(c, evs.drop_last(), t).0;
        let c1 = apply_one(p, evs.last(), t).0;
        assert forall|i: int, j: int| 0 <= i < c.len() && 0 <= j < c[i].len() implies same_note(
            #[trigger] c1[i][j],
            c[i][j],
        ) by {
            assert(same_note(p[i][j], c[i][j]));
        }
    }
}

/// Judge state of a chart under playback.
pub struct ChartRenderer {
    pub chart: Chart,
    /// Game time of the last update.
    pub time: i64,
    /// Whether the last update moved the time forward.
    pub advanced: bool,
    /// Who judges the notes.
    pub mode: JudgeMode,
    /// The aspect ratio the chart was designed for.
    pub design_ratio: Ratio,
}

impl ChartRenderer {
    pub fn new(chart: Chart, design_ratio: Ratio) -> (r: ChartRenderer)
        ensures
            r.chart == chart,
            r.time == 0,
            !r.advanced,
            r.mode == JudgeMode::Autoplay,
            r.design_ratio == design_ratio,
    {
        ChartRenderer { chart, time: 0, advanced: false, mode: JudgeMode::Autoplay, design_ratio }
    }

    /// Moves the playback to game time `time`.
    pub fn update(&mut self, time: i64)
        ensures
            final(self).time == time,
            final(self).advanced == (time > old(self).time),
            final(self).chart == old(self).chart,
            final(self).mode == old(self).mode,
            final(self).design_ratio == old(self).design_ratio,
    {
        self.advanced = time > self.time;
        self.time = time;
    }

    /// Applies the upstream events that are due at the current time, in
    /// order, and removes them from the queue.
    pub fn apply_pending(&mut self, pending: &mut VecDeque<UpstreamJudge>) -> (r: Vec<JudgeEvent>)
        ensures
            final(pending)@ == old(pending)@.skip(ready_count(old(pending)@, old(self).time) as int),
            (final(self).chart.model(), r@) == apply_all(
                old(self).chart.model(),
                old(pending)@.take(ready_count(old(pending)@, old(self).time) as int),
                old(self).time,
            ),
            final(self).time == old(self).time,
            final(self).advanced == old(self).advanced,
            final(self).mode == old(self).mode,
            final(self).design_ratio == old(self).design_ratio,
    {
        let t = self.time;
        let ghost q0 = pending@;
        let ghost c0 = self.chart.model();
        let mut events: Vec<JudgeEvent> = Vec::new();
        let ghost mut k: int = 0;
        while pending.len() > 0 && pending[0].time <= t
            invariant
                0 <= k <= q0.len(),
                pending@ == q0.skip(k),
                pending@.len() == q0.len() - k,
                forall|i: int| 0 <= i < k ==> q0[i].time <= t,
                (self.chart.model(), events@) == apply_all(c0, q0.take(k), t),
                self.time == t,
                self.advanced == old(self).advanced,
                self.mode == old(self).mode,
                self.design_ratio == old(self).design_ratio,
            decreases pending@.len(),
        {
            let ghost before = self.chart.model();
            let ev = pending.pop_front().unwrap();
            proof {
                assert(q0.take(k + 1).drop_last() =~= q0.take(k));
                assert(ev == q0[k]);
            }
            let l = ev.line_id as usize;
            let n = ev.note_id as usize;
            if l < self.chart.lines.len() && n < self.chart.lines[l].notes.len() {
                let ghost old_line = self.chart.lines[l as int].notes@;
                let r = self.chart.lines[l].notes[n].apply_upstream(ev, t);
                proof {
                    let c1 = apply_one(before, ev, t);
                    assert(before[l as int] == old_line);
                    assert(self.chart.model() =~= c1.0) by {
                        assert(self.chart.lines@[l as int].notes@ =~= c1.0[l as int]);
                    }
                }
                match r {
                    Some(kind) => {
                        events.push(JudgeEvent { kind, line_idx: l, note_idx: n });
                    },
                    None => {},
                }
                proof {
                    let c1 = apply_one(before, ev, t);
                    assert(events@ =~= apply_all(c0, q0.take(k), t).1 + c1.1);
                }
            } else {
                proof {
                    assert(events@ =~= apply_all(c0, q0.take(k), t).1 + seq![]);
                }
            }
            proof {
                k = k + 1;
            }
            proof {
                assert(pending@ =~= q0.skip(k));
            }
        }
        proof {
            lemma_ready_count(q0, t, k);
        }
        events
    }

    /// The state machine pass: every note takes one step at the current
    /// time, lines in order and notes in order within a line.
    pub fn step_notes(&mut self) -> (r: Vec<JudgeEvent>)
        ensures
            final(self).chart.model() == chart_stepped(old(self).chart.model(), old(self).time, old(self).mode),
            r@ == chart_events(
                old(self).chart.model(),
                old(self).chart.model().len() as int,
                old(self).time,
                old(self).mode,
            ),
            final(self).time == old(self).time,
            final(self).advanced == old(self).advanced,
            final(self).mode == old(self).mode,
            final(self).design_ratio == old(self).design_ratio,
    {
        let t = self.time;
        let a = self.mode;
        let ghost c0 = self.chart.model();
        let ghost target = chart_stepped(c0, t, a);
        let mut events: Vec<JudgeEvent> = Vec::new();
        let mut l: usize = 0;
        while l < self.chart.lines.len()
            invariant
                0 <= l <= c0.len(),
                target == chart_stepped(c0, t, a),
                self.chart.model().len() == c0.len(),
                forall|i: int| 0 <= i < l ==> self.chart.model()[i] == target[i],
                forall|i: int| l <= i < c0.len() ==> self.chart.model()[i] == c0[i],
                events@ == chart_events(c0, l as int, t, a),
                self.time == t,
                self.mode == a,
                self.design_ratio == old(self).design_ratio,
                self.advanced == old(self).advanced,
            decreases c0.len() - l,
        {
            let mut n: usize = 0;
            let ghost line0 = c0[l as int];
            let ghost before = self.chart.model();
            while n < self.chart.lines[l].notes.len()
                invariant
                    0 <= l < c0.len(),
                    0 <= n <= line0.len(),
                    line0 == c0[l as int],
                    self.chart.model().len() == c0.len(),
                    self.chart.model()[l as int].len() == line0.len(),
                    forall|j: int| 0 <= j < n ==> self.chart.model()[l as int][j] == stepped(line0[j], t, a),
                    forall|j: int| n <= j < line0.len() ==> self.chart.model()[l as int][j] == line0[j],
                    forall|i: int| 0 <= i < c0.len() && i != l ==> self.chart.model()[i] == before[i],
                    events@ == chart_events(c0, l as int, t, a) + line_events(l as int, line0, n as int, t, a),
                    self.time == t,
                    self.mode == a,
                    self.design_ratio == old(self).design_ratio,
                self.design_ratio == old(self).design_ratio,
                    self.advanced == old(self).advanced,
                decreases line0.len() - n,
            {
                let ghost m0 = self.chart.model();
                let r = self.chart.lines[l].notes[n].step(t, a);
                proof {
                    assert(m0[l as int][n as int] == line0[n as int]);
                    assert forall|i: int| 0 <= i < c0.len() && i != l implies self.chart.model()[i] == m0[i] by {}
                }
                match r {
                    Some(kind) => {
                        events.push(JudgeEvent { kind, line_idx: l, note_idx: n });
                    },
                    None => {},
                }
                proof {
                    assert(events@ =~= chart_events(c0, l as int, t, a) + line_events(
                        l as int,
                        line0,
                        n + 1,
                        t,
                        a,
                    ));
                }
                n = n + 1;
            }
            proof {
                assert(target.len() == c0.len());
                assert(target[l as int] == line0.map_values(|x: Note| stepped(x, t, a)));
                assert(self.chart.model()[l as int] =~= target[l as int]);
                assert(events@ =~= chart_events(c0, l + 1, t, a));
            }
            l = l + 1;
        }
        proof {
            assert(self.chart.model() =~= target);
        }
        events
    }

    /// The judge pass of one frame. Upstream events due at the current time
    /// are applied first, in arrival order; then, if the time moved forward
    /// since the last update, every note takes one state machine step.
    pub fn update_judges(&mut self, pending: &mut VecDeque<UpstreamJudge>) -> (r: Vec<JudgeEvent>)
        ensures
            final(pending)@ == old(pending)@.skip(ready_count(old(pending)@, old(self).time) as int),
            (final(self).chart.model(), r@) == judge_pass(
                old(self).chart.model(),
                old(pending)@,
                old(self).time,
                old(self).advanced,
                old(self).mode,
            ),
            final(self).time == old(self).time,
            final(self).advanced == old(self).advanced,
            final(self).mode == old(self).mode,
            final(self).design_ratio == old(self).design_ratio,
    {
        let mut events = self.apply_pending(pending);
        if self.advanced {
            let mut more = self.step_notes();
            events.append(&mut more);
        }
        proof {
            let hooked = apply_all(old(self).chart.model(), old(pending)@.take(ready_count(old(pending)@, old(self).time) as int), old(self).time);
            assert(hooked.1 =~= hooked.1 + Seq::<JudgeEvent>::empty());
        }
        events
    }

    /// Marks every stale note (see `Note::clear_if_stale`) as missed.
    pub fn clear_stale_notes(&mut self, player_time: i64)
        ensures
            final(self).chart.model() == chart_cleared(old(self).chart.model(), player_time),
            final(self).time == old(self).time,
            final(self).advanced == old(self).advanced,
            final(self).mode == old(self).mode,
            final(self).design_ratio == old(self).design_ratio,
    {
        let ghost c0 = self.chart.model();
        let ghost target = chart_cleared(c0, player_time);
        let mut l: usize = 0;
        while l < self.chart.lines.len()
            invariant
                0 <= l <= c0.len(),
                target == chart_cleared(c0, player_time),
                self.chart.model().len() == c0.len(),
                forall|i: int| 0 <= i < l ==> self.chart.model()[i] == target[i],
                forall|i: int| l <= i < c0.len() ==> self.chart.model()[i] == c0[i],
                self.time == old(self).time,
                self.mode == old(self).mode,
                self.design_ratio == old(self).design_ratio,
                self.advanced == old(self).advanced,
            decreases c0.len() - l,
        {
            let mut n: usize = 0;
            let ghost line0 = c0[l as int];
            let ghost before = self.chart.model();
            while n < self.chart.lines[l].notes.len()
                invariant
                    0 <= l < c0.len(),
                    0 <= n <= line0.len(),
                    line0 == c0[l as int],
                    self.chart.model().len() == c0.len(),
                    self.chart.model()[l as int].len() == line0.len(),
                    forall|j: int| 0 <= j < n ==> self.chart.model()[l as int][j] == cleared(line0[j], player_time),
                    forall|j: int| n <= j < line0.len() ==> self.chart.model()[l as int][j] == line0[j],
                    forall|i: int| 0 <= i < c0.len() && i != l ==> self.chart.model()[i] == before[i],
                    self.time == old(self).time,
                    self.mode == old(self).mode,
                    self.design_ratio == old(self).design_ratio,
                self.design_ratio == old(self).design_ratio,
                    self.advanced == old(self).advanced,
                decreases line0.len() - n,
            {
                let ghost m0 = self.chart.model();
                self.chart.lines[l].notes[n].clear_if_stale(player_time);
                proof {
                    assert(m0[l as int][n as int] == line0[n as int]);
                    assert forall|i: int| 0 <= i < c0.len() && i != l implies self.chart.model()[i] == m0[i] by {}
                }
                n = n + 1;
            }
            proof {
                assert(target.len() == c0.len());
                assert(target[l as int] == line0.map_values(|x: Note| cleared(x, player_time)));
                assert(self.chart.model()[l as int] =~= target[l as int]);
            }
            l = l + 1;
        }
        proof {
            assert(self.chart.model() =~= target);
        }
    }

    /// Whether some live note is still unjudged more than `UNJUDGED_LIMIT`
    /// after its time.
    pub fn has_unjudged(&self, t: i64) -> (r: bool)
        ensures
            r == chart_has_overdue(self.chart.model(), t),
    {
        let ghost c = self.chart.model();
        let mut l: usize = 0;
        while l < self.chart.lines.len()
            invariant
                0 <= l <= c.len(),
                c == self.chart.model(),
                forall|i: int, j: int| 0 <= i < l && 0 <= j < c[i].len() ==> !(is_unjudged(#[trigger] c[i][j]) && t - c[i][j].time > UNJUDGED_LIMIT),
            decreases c.len() - l,
        {
            let mut n: usize = 0;
            while n < self.chart.lines[l].notes.len()
                invariant
                    0 <= l < c.len(),
                    0 <= n <= c[l as int].len(),
                    c == self.chart.model(),
                    forall|i: int, j: int| 0 <= i < l && 0 <= j < c[i].len() ==> !(is_unjudged(#[trigger] c[i][j]) && t - c[i][j].time > UNJUDGED_LIMIT),
                    forall|j: int| 0 <= j < n ==> !(is_unjudged(#[trigger] c[l as int][j]) && t - c[l as int][j].time > UNJUDGED_LIMIT),
                decreases c[l as int].len() - n,
            {
                if self.chart.lines[l].notes[n].is_overdue(t) {
                    proof {
                        assert(c[l as int][n as int] == self.chart.lines@[l as int].notes@[n as int]);
                    }
                    return true;
                }
                n = n + 1;
            }
            l = l + 1;
        }
        false
    }

    /// Puts every note back to waiting for its judgement.
    pub fn reset_judges(&mut self)
        ensures
            final(self).chart.model() == chart_reset(old(self).chart.model()),
            final(self).time == old(self).time,
            final(self).advanced == old(self).advanced,
            final(self).mode == old(self).mode,
            final(self).design_ratio == old(self).design_ratio,
    {
        let ghost c0 = self.chart.model();
        let ghost target = chart_reset(c0);
        let mut l: usize = 0;
        while l < self.chart.lines.len()
            invariant
                0 <= l <= c0.len(),
                target == chart_reset(c0),
                self.chart.model().len() == c0.len(),
                forall|i: int| 0 <= i < l ==> self.chart.model()[i] == target[i],
                forall|i: int| l <= i < c0.len() ==> self.chart.model()[i] == c0[i],
                self.time == old(self).time,
                self.mode == old(self).mode,
                self.advanced == old(self).advanced,
                self.design_ratio == old(self).design_ratio,
            decreases c0.len() - l,
        {
            let mut n: usize = 0;
            let ghost line0 = c0[l as int];
            let ghost before = self.chart.model();
            while n < self.chart.lines[l].notes.len()
                invariant
                    0 <= l < c0.len(),
                    0 <= n <= line0.len(),
                    line0 == c0[l as int],
                    self.chart.model().len() == c0.len(),
                    self.chart.model()[l as int].len() == line0.len(),
                    forall|j: int| 0 <= j < n ==> self.chart.model()[l as int][j] == with_judge(line0[j], JudgeStatus::NotJudged),
                    forall|j: int| n <= j < line0.len() ==> self.chart.model()[l as int][j] == line0[j],
                    forall|i: int| 0 <= i < c0.len() && i != l ==> self.chart.model()[i] == before[i],
                    self.time == old(self).time,
                    self.mode == old(self).mode,
                    self.advanced == old(self).advanced,
                    self.design_ratio == old(self).design_ratio,
                decreases line0.len() - n,
            {
                let ghost m0 = self.chart.model();
                self.chart.lines[l].notes[n].judge = JudgeStatus::NotJudged;
                proof {
                    assert(m0[l as int][n as int] == line0[n as int]);
                    assert forall|i: int| 0 <= i < c0.len() && i != l implies self.chart.model()[i] == m0[i] by {}
                }
                n = n + 1;
            }
            proof {
                assert(target.len() == c0.len());
                assert(target[l as int] == line0.map_values(|x: Note| with_judge(x, JudgeStatus::NotJudged)));
                assert(self.chart.model()[l as int] =~= target[l as int]);
            }
            l = l + 1;
        }
        proof {
            assert(self.chart.model() =~= target);
        }
    }
}

} // verus!
