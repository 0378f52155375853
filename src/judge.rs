//! Notes, their judgement bookkeeping, and the per-note judge state machine.
//!
//! Times are integer milliseconds of game time.

use vstd::prelude::*;

verus! {

/// Interval between two hold ticks.
pub const HOLD_PARTICLE_INTERVAL: i64 = 150;

/// Strict (live) mode: an unjudged note this far behind the clock is a miss.
pub const LIMIT_BAD: i64 = 220;

/// Cleanup after a rewind: an unjudged note this far behind is a miss.
pub const STALE_LIMIT: i64 = 200;

/// Live mode: an unjudged note this far behind the clock pauses the scene.
pub const UNJUDGED_LIMIT: i64 = 400;

#[derive(Debug, Clone, Copy, PartialEq, Eq, Structural)]
pub enum Judgement {
    Perfect,
    Good,
    Bad,
    Miss,
}

#[derive(Debug, Clone, Copy, PartialEq, Eq, Structural)]
pub enum NoteKind {
    Click,
    Hold { end_time: i64 },
    Flick,
    Drag,
}

pub open spec fn spec_order(k: NoteKind) -> i8 {
    match k {
        NoteKind::Hold { .. } => 0,
        NoteKind::Drag => 1,
        NoteKind::Click => 2,
        NoteKind::Flick => 3,
    }
}

impl NoteKind {
    /// Drawing order: holds first (behind), then drags, clicks, flicks.
    pub fn order(&self) -> (r: i8)
        ensures
            r == spec_order(*self),
    {
        match self {
            NoteKind::Hold { .. } => 0,
            NoteKind::Drag => 1,
            NoteKind::Click => 2,
            NoteKind::Flick => 3,
        }
    }

    pub fn is_hold(&self) -> (r: bool)
        ensures
            r == (*self is Hold),
    {
        match self {
            NoteKind::Hold { .. } => true,
            _ => false,
        }
    }
}

/// A sound played when a note is hit.
#[derive(Debug, Clone, PartialEq, Eq, Hash)]
pub enum HitSound {
    Click,
    Drag,
    Flick,
    Custom(String),
}

/// Judgement bookkeeping of one note.
#[derive(Debug, Clone, Copy, PartialEq, Eq, Structural)]
pub enum JudgeStatus {
    NotJudged,
    PreJudge,
    /// Judged at the given time with the given judgement; terminal.
    Judged(i64, Judgement),
    /// A hold in progress.
    Hold {
        perfect: bool,
        next_tick: i64,
        diff: i64,
        pre_judge: bool,
        up_time: Option<i64>,
    },
}

/// The judgement-relevant part of a note.
#[derive(Debug, Clone)]
pub struct Note {
    pub kind: NoteKind,
    /// Time at which the note should be hit.
    pub time: i64,
    pub fake: bool,
    pub hitsound: Option<HitSound>,
    pub judge: JudgeStatus,
}

/// What the judge pass reports about one note.
#[derive(Debug, Clone, Copy, PartialEq, Eq, Structural)]
pub enum JudgeEventKind {
    /// A click, drag or flick was judged.
    Judged(Judgement),
    /// A hold started: sound only, the ticks bring the particles.
    HoldStart,
    /// A hold tick: particle only.
    HoldTick(Judgement),
    /// A hold ended and its judgement is committed.
    HoldComplete(Judgement),
}

/// An event of the judge pass, naming the note by line and position.
#[derive(Debug, Clone, Copy, PartialEq, Eq, Structural)]
pub struct JudgeEvent {
    pub kind: JudgeEventKind,
    pub line_idx: usize,
    pub note_idx: usize,
}

/// The judgement carried by an upstream judge event.
#[derive(Debug, Clone, Copy, PartialEq, Eq, Structural)]
pub enum MpJudgement {
    Perfect,
    Good,
    Bad,
    Miss,
    HoldPerfect,
    HoldGood,
}

/// Who judges the notes.
#[derive(Debug, Clone, Copy, PartialEq, Eq, Structural)]
pub enum JudgeMode {
    /// Every note is hit perfectly when its time comes (standalone player).
    Autoplay,
    /// Nobody hits: a note left `LIMIT_BAD` behind the clock is a miss.
    Strict,
    /// The game server judges; notes wait for its events.
    Live,
}

/// A judge event as the game server reports it.
#[derive(Debug, Clone, Copy, PartialEq, Eq, Structural)]
pub struct UpstreamJudge {
    pub time: i64,
    pub line_id: u32,
    pub note_id: u32,
    pub judgement: MpJudgement,
}

pub open spec fn hold_judgement(perfect: bool) -> Judgement {
    if perfect {
        Judgement::Perfect
    } else {
        Judgement::Good
    }
}

/// The time of the hold tick after `at` (saturating at the largest time).
pub open spec fn next_tick_after(at: i64) -> i64 {
    if at <= i64::MAX - HOLD_PARTICLE_INTERVAL {
        (at + HOLD_PARTICLE_INTERVAL) as i64
    } else {
        i64::MAX
    }
}

/// A hold that started at `t`: its first tick is due one interval later.
pub open spec fn hold_started(perfect: bool, t: i64) -> JudgeStatus {
    JudgeStatus::Hold { perfect, next_tick: next_tick_after(t), diff: 0, pre_judge: false, up_time: None }
}

/// One step of the judge state machine for a note at game time `t`, when
/// no upstream event concerns it: the new status and the event, if any.
pub open spec fn note_step(n: Note, t: i64, mode: JudgeMode) -> (JudgeStatus, Option<JudgeEventKind>) {
    if n.fake {
        (n.judge, None)
    } else {
        match n.judge {
            JudgeStatus::NotJudged => {
                if mode == JudgeMode::Autoplay && n.time <= t {
                    match n.kind {
                        NoteKind::Hold { .. } => (hold_started(true, t), Some(JudgeEventKind::HoldStart)),
                        _ => (
                            JudgeStatus::Judged(t, Judgement::Perfect),
                            Some(JudgeEventKind::Judged(Judgement::Perfect)),
                        ),
                    }
                } else if mode == JudgeMode::Strict && t - n.time > LIMIT_BAD {
                    (JudgeStatus::Judged(t, Judgement::Miss), None)
                } else {
                    (n.judge, None)
                }
            },
            JudgeStatus::Hold { perfect, next_tick, diff, pre_judge, up_time } => {
                match n.kind {
                    NoteKind::Hold { end_time } => {
                        if t >= end_time {
                            (
                                JudgeStatus::Judged(t, hold_judgement(perfect)),
                                Some(JudgeEventKind::HoldComplete(hold_judgement(perfect))),
                            )
                        } else if t > next_tick {
                            (
                                JudgeStatus::Hold {
                                    perfect,
                                    next_tick: next_tick_after(next_tick),
                                    diff,
                                    pre_judge,
                                    up_time,
                                },
                                Some(JudgeEventKind::HoldTick(hold_judgement(perfect))),
                            )
                        } else {
                            (n.judge, None)
                        }
                    },
                    _ => (n.judge, None),
                }
            },
            _ => (n.judge, None),
        }
    }
}

/// What an upstream event does to the note it names, at game time `t`:
/// `None` where the note is fake or already judged (the event is dropped).
pub open spec fn upstream_step(n: Note, ev: UpstreamJudge, t: i64) -> Option<(JudgeStatus, JudgeEventKind)> {
    if n.fake || n.judge is Judged {
        None
    } else {
        Some(
            match ev.judgement {
                MpJudgement::Perfect => (
                    JudgeStatus::Judged(ev.time, Judgement::Perfect),
                    JudgeEventKind::Judged(Judgement::Perfect),
                ),
                MpJudgement::Good => (
                    JudgeStatus::Judged(ev.time, Judgement::Good),
                    JudgeEventKind::Judged(Judgement::Good),
                ),
                MpJudgement::Bad => (
                    JudgeStatus::Judged(ev.time, Judgement::Bad),
                    JudgeEventKind::Judged(Judgement::Bad),
                ),
                MpJudgement::Miss => (
                    JudgeStatus::Judged(ev.time, Judgement::Miss),
                    JudgeEventKind::Judged(Judgement::Miss),
                ),
                MpJudgement::HoldPerfect => (hold_started(true, t), JudgeEventKind::HoldStart),
                MpJudgement::HoldGood => (hold_started(false, t), JudgeEventKind::HoldStart),
            },
        )
    }
}

/// Whether a note is a live note still waiting for its judgement.
pub open spec fn is_unjudged(n: Note) -> bool {
    !n.fake && n.judge is NotJudged
}

/// The time of the hold tick after `at` (see `next_tick_after`).
fn tick_after(at: i64) -> (r: i64)
    ensures
        r == next_tick_after(at),
{
    if at <= i64::MAX - HOLD_PARTICLE_INTERVAL {
        at + HOLD_PARTICLE_INTERVAL
    } else {
        i64::MAX
    }
}

impl Note {
    /// A plain note of the given kind and time, not yet judged.
    pub fn new(kind: NoteKind, time: i64, fake: bool) -> (r: Note)
        ensures
            r.kind == kind,
            r.time == time,
            r.fake == fake,
            r.hitsound is None,
            r.judge == JudgeStatus::NotJudged,
    {
        Note { kind, time, fake, hitsound: None, judge: JudgeStatus::NotJudged }
    }

    /// Applies one step of the judge state machine at game time `t`.
    pub fn step(&mut self, t: i64, mode: JudgeMode) -> (r: Option<JudgeEventKind>)
        ensures
            (final(self).judge, r) == note_step(*old(self), t, mode),
            final(self).kind == old(self).kind,
            final(self).time == old(self).time,
            final(self).fake == old(self).fake,
            final(self).hitsound == old(self).hitsound,
    {
        if self.fake {
            return None;
        }
        match self.judge {
            JudgeStatus::NotJudged => {
                if mode == JudgeMode::Autoplay && self.time <= t {
                    match self.kind {
                        NoteKind::Hold { .. } => {
                            self.judge = JudgeStatus::Hold {
                                perfect: true,
                                next_tick: tick_after(t),
                                diff: 0,
                                pre_judge: false,
                                up_time: None,
                            };
                            Some(JudgeEventKind::HoldStart)
                        },
                        _ => {
                            self.judge = JudgeStatus::Judged(t, Judgement::Perfect);
                            Some(JudgeEventKind::Judged(Judgement::Perfect))
                        },
                    }
                } else if mode == JudgeMode::Strict && (t as i128) - (self.time as i128) > LIMIT_BAD as i128 {
                    self.judge = JudgeStatus::Judged(t, Judgement::Miss);
                    None
                } else {
                    None
                }
            },
            JudgeStatus::Hold { perfect, next_tick, diff, pre_judge, up_time } => {
                match self.kind {
                    NoteKind::Hold { end_time } => {
                        let j = if perfect {
                            Judgement::Perfect
                        } else {
                            Judgement::Good
                        };
                        if t >= end_time {
                            self.judge = JudgeStatus::Judged(t, j);
                            Some(JudgeEventKind::HoldComplete(j))
                        } else if t > next_tick {
                            let nt = tick_after(next_tick);
                            self.judge = JudgeStatus::Hold {
                                perfect,
                                next_tick: nt,
                                diff,
                                pre_judge,
                                up_time,
                            };
                            Some(JudgeEventKind::HoldTick(j))
                        } else {
                            None
                        }
                    },
                    _ => None,
                }
            },
            _ => None,
        }
    }

    /// Applies an upstream judge event to this note at game time `t`.
    pub fn apply_upstream(&mut self, ev: UpstreamJudge, t: i64) -> (r: Option<JudgeEventKind>)
        ensures
            match upstream_step(*old(self), ev, t) {
                Some((s, k)) => final(self).judge == s && r == Some(k),
                None => final(self).judge == old(self).judge && r is None,
            },
            final(self).kind == old(self).kind,
            final(self).time == old(self).time,
            final(self).fake == old(self).fake,
            final(self).hitsound == old(self).hitsound,
    {
        if self.fake {
            return None;
        }
        if let JudgeStatus::Judged(_, _) = self.judge {
            return None;
        }
        let (s, k) = match ev.judgement {
            MpJudgement::Perfect => (
                JudgeStatus::Judged(ev.time, Judgement::Perfect),
                JudgeEventKind::Judged(Judgement::Perfect),
            ),
            MpJudgement::Good => (
                JudgeStatus::Judged(ev.time, Judgement::Good),
                JudgeEventKind::Judged(Judgement::Good),
            ),
            MpJudgement::Bad => (
                JudgeStatus::Judged(ev.time, Judgement::Bad),
                JudgeEventKind::Judged(Judgement::Bad),
            ),
            MpJudgement::Miss => (
                JudgeStatus::Judged(ev.time, Judgement::Miss),
                JudgeEventKind::Judged(Judgement::Miss),
            ),
            MpJudgement::HoldPerfect => (
                JudgeStatus::Hold { perfect: true, next_tick: tick_after(t), diff: 0, pre_judge: false, up_time: None },
                JudgeEventKind::HoldStart,
            ),
            MpJudgement::HoldGood => (
                JudgeStatus::Hold { perfect: false, next_tick: tick_after(t), diff: 0, pre_judge: false, up_time: None },
                JudgeEventKind::HoldStart,
            ),
        };
        self.judge = s;
        Some(k)
    }

    /// Marks a stale note as missed: a live note still unjudged whose time is
    /// more than `STALE_LIMIT` before `player_time`.
    pub fn clear_if_stale(&mut self, player_time: i64)
        ensures
            final(self).judge == (if is_unjudged(*old(self)) && player_time - old(self).time > STALE_LIMIT {
                JudgeStatus::Judged(player_time, Judgement::Miss)
            } else {
                old(self).judge
            }),
            final(self).kind == old(self).kind,
            final(self).time == old(self).time,
            final(self).fake == old(self).fake,
            final(self).hitsound == old(self).hitsound,
    {
        if !self.fake {
            if let JudgeStatus::NotJudged = self.judge {
                if (player_time as i128) - (self.time as i128) > STALE_LIMIT as i128 {
                    self.judge = JudgeStatus::Judged(player_time, Judgement::Miss);
                }
            }
        }
    }

    /// Whether this live note is unjudged and more than `UNJUDGED_LIMIT`
    /// behind `t`.
    pub fn is_overdue(&self, t: i64) -> (r: bool)
        ensures
            r == (is_unjudged(*self) && t - self.time > UNJUDGED_LIMIT),
    {
        let unjudged = match self.judge {
            JudgeStatus::NotJudged => true,
            _ => false,
        };
        !self.fake && unjudged && (t as i128) - (self.time as i128) > UNJUDGED_LIMIT as i128
    }
}

/// A note after frames at the times `frames[0..k]`, with no upstream
/// event, and how many hold ticks they gave.
pub open spec fn hold_run(n: Note, frames: Seq<i64>, k: nat, mode: JudgeMode) -> (Note, nat)
    decreases k,
{
    if k == 0 || k > frames.len() {
        (n, 0)
    } else {
        let prev = hold_run(n, frames, (k - 1) as nat, mode);
        let step = note_step(prev.0, frames[k - 1], mode);
        (
            Note { judge: step.0, ..prev.0 },
            prev.1 + if step.1 matches Some(JudgeEventKind::HoldTick(_)) {
                1nat
            } else {
                0nat
            },
        )
    }
}

/// Frames after `t0`, in increasing order, less than a tick interval apart.
pub open spec fn dense_frames(t0: i64, frames: Seq<i64>) -> bool {
    &&& frames.len() > 0 ==> t0 < frames[0] < t0 + HOLD_PARTICLE_INTERVAL
    &&& forall|i: int|
        0 <= i < frames.len() - 1 ==> #[trigger] frames[i] < frames[i + 1] < frames[i]
            + HOLD_PARTICLE_INTERVAL
}

/// The frame before frame `k`, or `t0` for the first one.
pub open spec fn frame_before(t0: i64, frames: Seq<i64>, k: int) -> i64 {
    if k == 0 {
        t0
    } else {
        frames[k - 1]
    }
}

proof fn lemma_hold_run(n: Note, t0: i64, end: i64, frames: Seq<i64>, k: nat, mode: JudgeMode)
    requires
        n.kind == (NoteKind::Hold { end_time: end }),
        !n.fake,
        n.judge == hold_started(true, t0),
        0 <= t0 < end <= 0x10_0000_0000_0000,
        dense_frames(t0, frames),
        k <= frames.len(),
        forall|i: int| 0 <= i < k ==> #[trigger] frames[i] < end,
    ensures
        ({
            let run = hold_run(n, frames, k, mode);
            let p = frame_before(t0, frames, k as int);
            let c = run.1;
            &&& run.0 == (Note { judge: hold_started(true, (t0 + HOLD_PARTICLE_INTERVAL * c) as i64), ..n })
            &&& p <= t0 + HOLD_PARTICLE_INTERVAL * (c + 1)
            &&& (c == 0 || t0 + HOLD_PARTICLE_INTERVAL * c < p)
        }),
    decreases k,
{
    if k > 0 {
        lemma_hold_run(n, t0, end, frames, (k - 1) as nat, mode);
        let p = frame_before(t0, frames, k - 1);
        let t = frames[k - 1];
        if k >= 2 {
            assert(frames[k - 2] < frames[k - 1] < frames[k - 2] + HOLD_PARTICLE_INTERVAL);
        }
        assert(p < t < p + HOLD_PARTICLE_INTERVAL);
    }
}

/// A hold note that starts perfect at `t0`, followed by frames less than a
/// tick interval apart whose last one reaches the end time, gives one hold
/// tick per full interval before its end, then completes as perfect at the
/// last frame. This needs the last frame before the end to come after the
/// last tick time before the end; a hold that lasts a whole number of
/// intervals never meets that, as its last tick time is its end.
pub proof fn lemma_hold_tick_cadence(n: Note, t0: i64, end: i64, frames: Seq<i64>, mode: JudgeMode)
    requires
        n.kind == (NoteKind::Hold { end_time: end }),
        !n.fake,
        n.judge == hold_started(true, t0),
        0 <= t0 < end <= 0x10_0000_0000_0000,
        dense_frames(t0, frames),
        frames.len() > 0,
        frames.last() >= end,
        forall|i: int| 0 <= i < frames.len() - 1 ==> #[trigger] frames[i] < end,
        frame_before(t0, frames, frames.len() - 1) > t0 + HOLD_PARTICLE_INTERVAL * ((end - t0) / (
        HOLD_PARTICLE_INTERVAL as int)),
    ensures
        ({
            let k = (frames.len() - 1) as nat;
            let run = hold_run(n, frames, k, mode);
            &&& run.1 == (end - t0) / (HOLD_PARTICLE_INTERVAL as int)
            &&& note_step(run.0, frames.last(), mode) == (
                JudgeStatus::Judged(frames.last(), Judgement::Perfect),
                Some(JudgeEventKind::HoldComplete(Judgement::Perfect)),
            )
        }),
{
    let k = (frames.len() - 1) as nat;
    lemma_hold_run(n, t0, end, frames, k, mode);
    let run = hold_run(n, frames, k, mode);
    let c = run.1 as int;
    let kk = (end - t0) / (HOLD_PARTICLE_INTERVAL as int);
    let p = frame_before(t0, frames, k as int);
    assert(p < end);
    assert(c >= kk);
    assert(c <= kk) by {
        if c > kk {
            assert(HOLD_PARTICLE_INTERVAL * c >= HOLD_PARTICLE_INTERVAL * (kk + 1)) by (nonlinear_arith)
                requires
                    c >= kk + 1,
            ;
            assert(HOLD_PARTICLE_INTERVAL * (kk + 1) > end - t0);
        }
    }
}

/// A note due exactly now: autoplay judges it in this step, strict and
/// live mode leave it waiting.
pub proof fn lemma_on_time_note(n: Note, t: i64)
    requires
        !n.fake,
        n.judge == JudgeStatus::NotJudged,
        n.time == t,
    ensures
        note_step(n, t, JudgeMode::Autoplay).1 is Some,
        note_step(n, t, JudgeMode::Autoplay).0 != JudgeStatus::NotJudged,
        note_step(n, t, JudgeMode::Strict) == (JudgeStatus::NotJudged, None::<JudgeEventKind>),
        note_step(n, t, JudgeMode::Live) == (JudgeStatus::NotJudged, None::<JudgeEventKind>),
{
}

} // verus!
