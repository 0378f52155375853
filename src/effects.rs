//! What the judge events of a frame set off: hit-sounds and hit particles.

use crate::engine::{
    events_for, judge_pass, lemma_judge_pass_shape, lemma_perfect_judge_event, Chart, ChartModel,
};
use crate::judge::{
    is_unjudged, HitSound, JudgeMode, JudgeEvent, JudgeEventKind, Judgement, MpJudgement, Note, NoteKind,
    UpstreamJudge,
};
use vstd::prelude::*;

verus! {

/// Tint of perfect hits when the resource pack names none.
pub fn default_perfect() -> (r: u32)
    ensures
        r == 0xe1ffec9f,
{
    0xe1ffec9f
}

/// Tint of good hits when the resource pack names none.
pub fn default_good() -> (r: u32)
    ensures
        r == 0xebb4e1ff,
{
    0xebb4e1ff
}

/// Whether hit effects are tinted when the resource pack does not say.
pub fn default_tinted() -> (r: bool)
    ensures
        r,
{
    true
}

/// Opaque white, the colour of untinted hit effects.
pub const WHITE: u32 = 0xffffffff;

/// The hit effect settings of a resource pack.
#[derive(Debug, Clone, Copy, PartialEq, Eq, Structural)]
pub struct HitFxInfo {
    pub hit_fx_tinted: bool,
    pub color_perfect: u32,
    pub color_good: u32,
}

impl HitFxInfo {
    /// The settings a pack has when it names none of them.
    pub fn new() -> (r: HitFxInfo)
        ensures
            r.hit_fx_tinted,
            r.color_perfect == 0xe1ffec9f,
            r.color_good == 0xebb4e1ff,
    {
        HitFxInfo {
            hit_fx_tinted: default_tinted(),
            color_perfect: default_perfect(),
            color_good: default_good(),
        }
    }

    pub open spec fn spec_fx_perfect(self) -> u32 {
        if self.hit_fx_tinted {
            self.color_perfect
        } else {
            WHITE
        }
    }

    pub open spec fn spec_fx_good(self) -> u32 {
        if self.hit_fx_tinted {
            self.color_good
        } else {
            WHITE
        }
    }

    /// Colour of the particles of a perfect hit.
    pub fn fx_perfect(&self) -> (r: u32)
        ensures
            r == self.spec_fx_perfect(),
    {
        if self.hit_fx_tinted {
            self.color_perfect
        } else {
            WHITE
        }
    }

    /// Colour of the particles of a good hit.
    pub fn fx_good(&self) -> (r: u32)
        ensures
            r == self.spec_fx_good(),
    {
        if self.hit_fx_tinted {
            self.color_good
        } else {
            WHITE
        }
    }
}

/// The hit-sound a note kind plays by default.
pub open spec fn spec_default_hitsound(k: NoteKind) -> HitSound {
    match k {
        NoteKind::Click => HitSound::Click,
        NoteKind::Hold { .. } => HitSound::Click,
        NoteKind::Drag => HitSound::Drag,
        NoteKind::Flick => HitSound::Flick,
    }
}

/// The hit-sound of a note: its own, else its kind's default.
pub open spec fn spec_note_hitsound(n: Note) -> HitSound {
    match n.hitsound {
        Some(h) => h,
        None => spec_default_hitsound(n.kind),
    }
}

pub fn default_hitsound(kind: NoteKind) -> (r: HitSound)
    ensures
        r == spec_default_hitsound(kind),
{
    match kind {
        NoteKind::Click => HitSound::Click,
        NoteKind::Hold { .. } => HitSound::Click,
        NoteKind::Drag => HitSound::Drag,
        NoteKind::Flick => HitSound::Flick,
    }
}

pub fn note_hitsound(note: &Note) -> (r: HitSound)
    ensures
        r == spec_note_hitsound(*note),
{
    match &note.hitsound {
        Some(HitSound::Click) => HitSound::Click,
        Some(HitSound::Drag) => HitSound::Drag,
        Some(HitSound::Flick) => HitSound::Flick,
        Some(HitSound::Custom(s)) => HitSound::Custom(s.clone()),
        None => default_hitsound(note.kind),
    }
}

/// A burst of hit particles at a note.
#[derive(Debug, Clone, Copy, PartialEq, Eq, Structural)]
pub struct ParticleSpawn {
    pub line_idx: usize,
    pub note_idx: usize,
    /// ARGB colour of the particles.
    pub color: u32,
}

pub open spec fn event_note_exists(c: ChartModel, e: JudgeEvent) -> bool {
    e.line_idx < c.len() && e.note_idx < c[e.line_idx as int].len()
}

/// The hit-sound an event plays: perfect and good judgements and the start
/// of a hold play the note's sound; misses, bads, ticks and hold ends none.
pub open spec fn event_sound(c: ChartModel, e: JudgeEvent) -> Option<HitSound> {
    if !event_note_exists(c, e) {
        None
    } else {
        match e.kind {
            JudgeEventKind::Judged(Judgement::Perfect) | JudgeEventKind::Judged(Judgement::Good)
            | JudgeEventKind::HoldStart => Some(
                spec_note_hitsound(c[e.line_idx as int][e.note_idx as int]),
            ),
            _ => None,
        }
    }
}

/// The particle colour of a judgement: perfect and good only.
pub open spec fn judgement_color(fx: HitFxInfo, j: Judgement) -> Option<u32> {
    match j {
        Judgement::Perfect => Some(fx.spec_fx_perfect()),
        Judgement::Good => Some(fx.spec_fx_good()),
        _ => None,
    }
}

/// The particles an event spawns: judgements, ticks and hold ends that are
/// perfect or good, none for the start of a hold or without a pack.
pub open spec fn event_particle(c: ChartModel, fx: Option<HitFxInfo>, e: JudgeEvent) -> Option<ParticleSpawn> {
    if !event_note_exists(c, e) || fx is None {
        None
    } else {
        let color = match e.kind {
            JudgeEventKind::Judged(j) => judgement_color(fx.unwrap(), j),
            JudgeEventKind::HoldTick(j) => judgement_color(fx.unwrap(), j),
            JudgeEventKind::HoldComplete(j) => judgement_color(fx.unwrap(), j),
            JudgeEventKind::HoldStart => None,
        };
        match color {
            Some(color) => Some(ParticleSpawn { line_idx: e.line_idx, note_idx: e.note_idx, color }),
            None => None,
        }
    }
}

pub open spec fn opt_seq<T>(o: Option<T>) -> Seq<T> {
    match o {
        Some(x) => seq![x],
        None => seq![],
    }
}

pub open spec fn sounds_of(c: ChartModel, evs: Seq<JudgeEvent>) -> Seq<HitSound>
    decreases evs.len(),
{
    if evs.len() == 0 {
        seq![]
    } else {
        sounds_of(c, evs.drop_last()) + opt_seq(event_sound(c, evs.last()))
    }
}

pub open spec fn particles_of(c: ChartModel, fx: Option<HitFxInfo>, evs: Seq<JudgeEvent>) -> Seq<ParticleSpawn>
    decreases evs.len(),
{
    if evs.len() == 0 {
        seq![]
    } else {
        particles_of(c, fx, evs.drop_last()) + opt_seq(event_particle(c, fx, evs.last()))
    }
}

fn judgement_color_of(fx: &HitFxInfo, j: Judgement) -> (r: Option<u32>)
    ensures
        r == judgement_color(*fx, j),
{
    match j {
        Judgement::Perfect => Some(fx.fx_perfect()),
        Judgement::Good => Some(fx.fx_good()),
        _ => None,
    }
}

/// The hit-sounds to play and the particles to spawn for a frame's judge
/// events, in event order. Events naming no note of the chart are skipped.
pub fn judge_effects(chart: &Chart, events: &Vec<JudgeEvent>, fx: Option<HitFxInfo>) -> (r: (
    Vec<HitSound>,
    Vec<ParticleSpawn>,
))
    ensures
        r.0@ == sounds_of(chart.model(), events@),
        r.1@ == particles_of(chart.model(), fx, events@),
{
    let ghost c = chart.model();
    let mut sounds: Vec<HitSound> = Vec::new();
    let mut particles: Vec<ParticleSpawn> = Vec::new();
    let mut i: usize = 0;
    while i < events.len()
        invariant
            0 <= i <= events@.len(),
            c == chart.model(),
            sounds@ == sounds_of(c, events@.take(i as int)),
            particles@ == particles_of(c, fx, events@.take(i as int)),
        decreases events@.len() - i,
    {
        let e = events[i];
        proof {
            assert(events@.take(i + 1).drop_last() =~= events@.take(i as int));
        }
        let exists = e.line_idx < chart.lines.len() && e.note_idx < chart.lines[e.line_idx].notes.len();
        if exists {
            let note = &chart.lines[e.line_idx].notes[e.note_idx];
            proof {
                assert(c[e.line_idx as int][e.note_idx as int] == *note);
            }
            let sound = match e.kind {
                JudgeEventKind::Judged(Judgement::Perfect) | JudgeEventKind::Judged(Judgement::Good)
                | JudgeEventKind::HoldStart => Some(note_hitsound(note)),
                _ => None,
            };
            match sound {
                Some(s) => sounds.push(s),
                None => {},
            }
            match fx {
                Some(f) => {
                    let color = match e.kind {
                        JudgeEventKind::Judged(j) => judgement_color_of(&f, j),
                        JudgeEventKind::HoldTick(j) => judgement_color_of(&f, j),
                        JudgeEventKind::HoldComplete(j) => judgement_color_of(&f, j),
                        JudgeEventKind::HoldStart => None,
                    };
                    match color {
                        Some(color) => particles.push(
                            ParticleSpawn { line_idx: e.line_idx, note_idx: e.note_idx, color },
                        ),
                        None => {},
                    }
                },
                None => {},
            }
        }
        proof {
            assert(sounds@ =~= sounds_of(c, events@.take(i + 1)));
            assert(particles@ =~= particles_of(c, fx, events@.take(i + 1)));
        }
        i = i + 1;
    }
    proof {
        assert(events@.take(events@.len() as int) =~= events@);
    }
    (sounds, particles)
}

/// The one event a due perfect judge event gives for its waiting live note
/// plays that note's hit-sound once and spawns perfect particles once.
pub proof fn lemma_perfect_event_effects(
    c: ChartModel,
    ev: UpstreamJudge,
    t: i64,
    advanced: bool,
    mode: JudgeMode,
    fx: HitFxInfo,
)
    requires
        ev.judgement == MpJudgement::Perfect,
        ev.time <= t,
        (ev.line_id as int) < c.len(),
        (ev.note_id as int) < c[ev.line_id as int].len(),
        is_unjudged(c[ev.line_id as int][ev.note_id as int]),
        c.len() <= usize::MAX,
        forall|i: int| 0 <= i < c.len() ==> (#[trigger] c[i]).len() <= usize::MAX,
    ensures
        ({
            let l = ev.line_id as usize;
            let n = ev.note_id as usize;
            let pass = judge_pass(c, seq![ev], t, advanced, mode);
            let e = JudgeEvent { kind: JudgeEventKind::Judged(Judgement::Perfect), line_idx: l, note_idx: n };
            &&& events_for(pass.1, l, n) == seq![e]
            &&& event_sound(pass.0, e) == Some(spec_note_hitsound(c[l as int][n as int]))
            &&& event_particle(pass.0, Some(fx), e) == Some(
                ParticleSpawn { line_idx: l, note_idx: n, color: fx.spec_fx_perfect() },
            )
        }),
{
    lemma_perfect_judge_event(c, ev, t, advanced, mode);
    let l = ev.line_id as usize;
    let n = ev.note_id as usize;
    let pass = judge_pass(c, seq![ev], t, advanced, mode);
    lemma_judge_pass_shape(c, seq![ev], t, advanced, mode);
    assert(pass.0[l as int][n as int].hitsound == c[l as int][n as int].hitsound);
}

} // verus!
