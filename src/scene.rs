//! One player's scene: the clock, the event mailbox and the playback rules
//! that turn a sparse, late judge feed into a steady picture.
//!
//! Rules of a frame, in order: the start delay (and the seek on start), the
//! resume with rewind once a judge event arrives during a judge pause, the
//! frame time (from the audio while playing), the judge pass, and the pause
//! when a live note stays unjudged too long.

use crate::clock::{clamp_time, in_bound, TimeManager, TIME_BOUND};
use crate::effects::{judge_effects, particles_of, sounds_of, HitFxInfo, ParticleSpawn};
use crate::engine::{
    chart_cleared, chart_has_overdue, judge_pass, lemma_cleared_no_overdue, lemma_judge_pass_no_overdue,
    ready_count, ChartRenderer,
};
use crate::touch::{apply_frames, fresh_of, kept_of, swept_of, TouchFrame, TouchOverlay};
use crate::viewport::{default_ratio, letterbox, spec_letterbox, Ratio, Viewport};
use crate::judge::{HitSound, JudgeEvent, JudgeMode, UpstreamJudge};
use std::collections::VecDeque;
use vstd::prelude::*;

verus! {

/// Time from the start of a game to the start of playback.
pub const START_DELAY: i64 = 4500;

/// How far before the buffered evidence playback starts on a late start.
pub const SEEK_OFFSET: i64 = 100;

/// How far playback rewinds when a judge pause ends.
pub const REWIND_ON_RESUME: i64 = 1000;

/// What the scene asks of its audio engine.
#[derive(Debug, Clone, Copy, PartialEq, Eq, Structural)]
pub enum AudioAction {
    /// Play the music from the given position.
    Play(i64),
    Pause,
}

/// What a frame came to.
#[derive(Debug)]
pub enum Frame {
    /// No canvas: nothing is drawn and nothing changes.
    Detached,
    /// The game has not started: the canvas is cleared.
    NotStarted,
    /// The start delay runs: nothing changes.
    Waiting,
    /// A frame of the chart at `current_time`.
    Drawn {
        current_time: i64,
        audio: Vec<AudioAction>,
        events: Vec<JudgeEvent>,
        sounds: Vec<HitSound>,
        particles: Vec<ParticleSpawn>,
    },
}

/// One player's scene.
pub struct GameScene {
    pub user_id: i32,
    /// Whether a canvas (and with it renderer and audio) is attached.
    pub attached: bool,
    pub chart_renderer: Option<ChartRenderer>,
    pub time: TimeManager,
    /// Set while paused waiting for a judge event: the frozen game time.
    pub judge_pause_time: Option<i64>,
    /// The latest game time that buffered events speak of.
    pub target_time: Option<i64>,
    /// Set by a judge event: lifts a judge pause on the next frame.
    pub unpause_signal: Option<i64>,
    /// Wall time at which the game started.
    pub start_wall_time: Option<i64>,
    pub pending_judges: VecDeque<UpstreamJudge>,
    /// Hit effect settings of the loaded resource pack.
    pub fx: Option<HitFxInfo>,
    /// The viewport of the last resize.
    pub viewport: Option<Viewport>,
    /// The player's fingers.
    pub touches: TouchOverlay,
}

pub open spec fn opt_in_bound(o: Option<i64>) -> bool {
    match o {
        Some(x) => in_bound(x as int),
        None => true,
    }
}

pub open spec fn max0(x: int) -> int {
    if x > 0 {
        x
    } else {
        0
    }
}

/// The wall time at which playback of a started game begins: the start
/// delay, cut short when buffered evidence already reaches further.
pub open spec fn start_deadline(start: i64, target: Option<i64>) -> int {
    match target {
        Some(t) => if t < START_DELAY {
            start + t
        } else {
            start + START_DELAY
        },
        None => start + START_DELAY,
    }
}

/// Where playback starts: a little before the buffered evidence, or at 0.
pub open spec fn start_position(target: Option<i64>) -> int {
    match target {
        Some(t) => max0(t - SEEK_OFFSET),
        None => 0,
    }
}

/// The position a judge pause at `p` resumes from.
pub open spec fn rewind_position(p: i64) -> int {
    max0(p - REWIND_ON_RESUME)
}

pub open spec fn events_in_bound(evs: Seq<UpstreamJudge>) -> bool {
    forall|i: int| 0 <= i < evs.len() ==> in_bound(#[trigger] evs[i].time as int)
}

/// The latest of `target` and `t`.
pub open spec fn raised(target: Option<i64>, t: i64) -> Option<i64> {
    match target {
        Some(x) => Some(if x > t {
            x
        } else {
            t
        }),
        None => Some(t),
    }
}

fn clamp_game_time(x: i64) -> (r: i64)
    ensures
        r == clamp_time(x as int),
{
    if x > TIME_BOUND {
        TIME_BOUND
    } else if x < -TIME_BOUND {
        -TIME_BOUND
    } else {
        x
    }
}

/// The scene after a canvas is attached at wall time `wall`: a scene that is
/// attached already stays as it is; a started scene with buffered evidence
/// seeks its clock to the start position.
pub open spec fn attached_scene(s: GameScene, wall: i64) -> GameScene {
    if s.attached {
        s
    } else if s.start_wall_time is Some && s.target_time is Some {
        GameScene {
            attached: true,
            time: TimeManager {
                start_wall: clamp_time(s.time.reference(wall) - start_position(s.target_time)),
                ..s.time
            },
            ..s
        }
    } else {
        GameScene { attached: true, ..s }
    }
}

/// The scene after its canvas is detached: all else is kept.
pub open spec fn detached_scene(s: GameScene) -> GameScene {
    GameScene { attached: false, ..s }
}

/// Attaching a headless scene, detaching and attaching again leaves the
/// clock, the chart and the queues as the first attach left them. (A started
/// scene whose clock runs and that has buffered evidence seeks again on the
/// second attach, so it is left out.)
pub proof fn lemma_reattach(s: GameScene, w1: i64, w2: i64)
    requires
        !s.attached,
        !(s.start_wall_time is Some && s.target_time is Some && s.time.pause_wall is None),
    ensures
        attached_scene(detached_scene(attached_scene(s, w1)), w2) == attached_scene(s, w1),
{
}

/// Evidence from before the end of the start delay, such as a touch frame
/// that arrives around the start of the game, raises the target time and
/// cuts the wait short: playback begins at the start plus that time.
pub proof fn lemma_early_evidence(target: Option<i64>, t: i64, start: i64)
    requires
        t < START_DELAY,
        target is None || target.unwrap() <= t,
    ensures
        raised(target, t) == Some(t),
        start_deadline(start, raised(target, t)) == start + t,
        start_deadline(start, raised(target, t)) < start + START_DELAY,
{
}

/// Resizing twice to the same size leaves the scene as the first resize did.
pub proof fn lemma_resize_idempotent(s: GameScene, w: u32, h: u32)
    ensures
        ({
            let once = GameScene { viewport: Some(spec_letterbox(w, h, s.design_ratio())), ..s };
            let twice = GameScene { viewport: Some(spec_letterbox(w, h, once.design_ratio())), ..once };
            twice == once
        }),
{
}

/// `s` is `o` after `push_judges(judges)`: the events are queued, and the
/// last one signals a resume and raises the target time.
pub open spec fn judges_pushed(s: GameScene, o: GameScene, judges: Seq<UpstreamJudge>) -> bool {
    &&& s.pending_judges@ == o.pending_judges@ + judges
    &&& s.unpause_signal == if judges.len() > 0 {
        Some(judges.last().time)
    } else {
        o.unpause_signal
    }
    &&& s.target_time == if judges.len() > 0 {
        raised(o.target_time, judges.last().time)
    } else {
        o.target_time
    }
    &&& s.user_id == o.user_id
    &&& s.attached == o.attached
    &&& s.chart_renderer == o.chart_renderer
    &&& s.time == o.time
    &&& s.judge_pause_time == o.judge_pause_time
    &&& s.start_wall_time == o.start_wall_time
    &&& s.fx == o.fx
    &&& s.viewport == o.viewport
    &&& s.touches == o.touches
}

/// `s` is `o` after `start(wall)`: a started scene stays as it is; another
/// is started at `wall` with its clock at 0 and paused through the delay.
pub open spec fn scene_started(s: GameScene, o: GameScene, wall: i64) -> bool {
    if o.start_wall_time is Some {
        s == o
    } else {
        &&& s.start_wall_time == Some(wall)
        &&& s.time == (TimeManager { start_wall: wall, pause_wall: Some(wall) })
        &&& s.user_id == o.user_id
        &&& s.attached == o.attached
        &&& s.chart_renderer == o.chart_renderer
        &&& s.judge_pause_time == o.judge_pause_time
        &&& s.target_time == o.target_time
        &&& s.unpause_signal == o.unpause_signal
        &&& s.pending_judges@ == o.pending_judges@
        &&& s.fx == o.fx
        &&& s.viewport == o.viewport
        &&& s.touches == o.touches
    }
}

impl GameScene {
    pub open spec fn wf(&self) -> bool {
        &&& self.time.wf()
        &&& self.touches.wf()
        &&& match self.time.pause_wall {
            Some(p) => 0 <= p,
            None => true,
        }
        &&& opt_in_bound(self.judge_pause_time)
        &&& (self.judge_pause_time is Some ==> self.time.pause_wall is Some)
        &&& opt_in_bound(self.target_time)
        &&& opt_in_bound(self.unpause_signal)
        &&& opt_in_bound(self.start_wall_time)
        &&& match self.start_wall_time {
            Some(s) => 0 <= s <= TIME_BOUND - START_DELAY,
            None => true,
        }
    }

    /// Whether only the headless state is equal: all but the canvas.
    pub open spec fn same_state(&self, o: &GameScene) -> bool {
        &&& self.user_id == o.user_id
        &&& self.chart_renderer == o.chart_renderer
        &&& self.time == o.time
        &&& self.judge_pause_time == o.judge_pause_time
        &&& self.target_time == o.target_time
        &&& self.unpause_signal == o.unpause_signal
        &&& self.start_wall_time == o.start_wall_time
        &&& self.pending_judges@ == o.pending_judges@
        &&& self.fx == o.fx
        &&& self.viewport == o.viewport
        &&& self.touches == o.touches
    }

    /// A scene without canvas and chart; its clock is paused until `start`.
    pub fn new_headless(user_id: i32, wall: i64) -> (r: GameScene)
        requires
            0 <= wall <= TIME_BOUND,
        ensures
            r.wf(),
            r.user_id == user_id,
            !r.attached,
            r.chart_renderer is None,
            r.time.pause_wall == Some(wall),
            r.judge_pause_time is None,
            r.target_time is None,
            r.unpause_signal is None,
            r.start_wall_time is None,
            r.pending_judges@.len() == 0,
            r.fx is None,
            r.viewport is None,
            r.touches.active@.len() == 0,
            r.touches.fading@.len() == 0,
    {
        let mut time = TimeManager::new(wall);
        time.pause(wall);
        GameScene {
            user_id,
            attached: false,
            chart_renderer: None,
            time,
            judge_pause_time: None,
            target_time: None,
            unpause_signal: None,
            start_wall_time: None,
            pending_judges: VecDeque::new(),
            fx: None,
            viewport: None,
            touches: TouchOverlay::new(),
        }
    }

    /// Back to the state before any game: clock at 0 and paused, no
    /// buffered events, not started.
    fn reset_state(&mut self, wall: i64)
        requires
            0 <= wall <= TIME_BOUND,
        ensures
            final(self).time == (TimeManager { start_wall: wall, pause_wall: Some(wall) }),
            final(self).judge_pause_time is None,
            final(self).target_time is None,
            final(self).unpause_signal is None,
            final(self).start_wall_time is None,
            final(self).pending_judges@.len() == 0,
            final(self).user_id == old(self).user_id,
            final(self).attached == old(self).attached,
            final(self).chart_renderer == old(self).chart_renderer,
            final(self).fx == old(self).fx,
            final(self).viewport == old(self).viewport,
            final(self).touches.active@.len() == 0,
            final(self).touches.fading@.len() == 0,
    {
        self.time.reset(wall);
        self.time.pause(wall);
        self.touches = TouchOverlay::new();
        self.judge_pause_time = None;
        self.target_time = None;
        self.unpause_signal = None;
        self.start_wall_time = None;
        self.pending_judges.clear();
    }

    /// Attaches a canvas. A scene that is already attached stays as it is;
    /// a started scene with buffered evidence seeks so that it enters the
    /// game where the evidence is.
    pub fn attach_canvas(&mut self, wall: i64)
        requires
            old(self).wf(),
            0 <= wall <= TIME_BOUND,
        ensures
            final(self).wf(),
            *final(self) == attached_scene(*old(self), wall),
    {
        if self.attached {
            return;
        }
        self.attached = true;
        if self.start_wall_time.is_some() {
            if let Some(target) = self.target_time {
                let pos = if target - SEEK_OFFSET > 0 {
                    target - SEEK_OFFSET
                } else {
                    0
                };
                self.time.seek_to(pos, wall);
            }
        }
    }

    /// Detaches the canvas; everything else is kept.
    pub fn detach_canvas(&mut self) -> (r: Vec<AudioAction>)
        requires
            old(self).wf(),
        ensures
            final(self).wf(),
            *final(self) == detached_scene(*old(self)),
            r@ == (if old(self).attached {
                seq![AudioAction::Pause]
            } else {
                Seq::empty()
            }),
    {
        let mut actions: Vec<AudioAction> = Vec::new();
        if self.attached {
            actions.push(AudioAction::Pause);
        }
        self.attached = false;
        actions
    }

    pub fn has_canvas(&self) -> (r: bool)
        ensures
            r == self.attached,
    {
        self.attached
    }

    pub fn has_chart(&self) -> (r: bool)
        ensures
            r == self.chart_renderer is Some,
    {
        self.chart_renderer.is_some()
    }

    /// Replaces the chart (judged live, by the game server's events) and resets the
    /// state of the game.
    pub fn load_chart(&mut self, mut cr: ChartRenderer, wall: i64) -> (r: Vec<AudioAction>)
        requires
            old(self).wf(),
            0 <= wall <= TIME_BOUND,
        ensures
            final(self).wf(),
            final(self).chart_renderer == Some(ChartRenderer { mode: JudgeMode::Live, ..cr }),
            final(self).time == (TimeManager { start_wall: wall, pause_wall: Some(wall) }),
            final(self).judge_pause_time is None,
            final(self).target_time is None,
            final(self).unpause_signal is None,
            final(self).start_wall_time is None,
            final(self).pending_judges@.len() == 0,
            final(self).attached == old(self).attached,
            final(self).user_id == old(self).user_id,
            final(self).fx == old(self).fx,
            r@ == (if old(self).attached {
                seq![AudioAction::Pause]
            } else {
                Seq::empty()
            }),
    {
        cr.mode = JudgeMode::Live;
        self.chart_renderer = Some(cr);
        self.reset_state(wall);
        let mut actions: Vec<AudioAction> = Vec::new();
        if self.attached {
            actions.push(AudioAction::Pause);
        }
        actions
    }

    /// Drops the chart and resets the state of the game.
    pub fn clear(&mut self, wall: i64)
        requires
            old(self).wf(),
            0 <= wall <= TIME_BOUND,
        ensures
            final(self).wf(),
            final(self).chart_renderer is None,
            final(self).time == (TimeManager { start_wall: wall, pause_wall: Some(wall) }),
            final(self).judge_pause_time is None,
            final(self).target_time is None,
            final(self).unpause_signal is None,
            final(self).start_wall_time is None,
            final(self).pending_judges@.len() == 0,
            final(self).attached == old(self).attached,
            final(self).user_id == old(self).user_id,
            final(self).fx == old(self).fx,
    {
        self.chart_renderer = None;
        self.reset_state(wall);
    }

    /// Marks the start of the game at wall time `wall`; a second call does
    /// nothing. The clock stays paused through the start delay.
    pub fn start(&mut self, wall: i64)
        requires
            old(self).wf(),
            0 <= wall <= TIME_BOUND - START_DELAY,
        ensures
            final(self).wf(),
            scene_started(*final(self), *old(self), wall),
    {
        if self.start_wall_time.is_some() {
            return;
        }
        self.time.reset(wall);
        self.time.pause(wall);
        self.start_wall_time = Some(wall);
    }

    /// Queues judge events from upstream. The last one signals a resume and
    /// raises the target time.
    pub fn push_judges(&mut self, judges: &Vec<UpstreamJudge>)
        requires
            old(self).wf(),
            events_in_bound(judges@),
        ensures
            final(self).wf(),
            judges_pushed(*final(self), *old(self), judges@),
    {
        let mut i: usize = 0;
        while i < judges.len()
            invariant
                0 <= i <= judges@.len(),
                self.pending_judges@ == old(self).pending_judges@ + judges@.take(i as int),
                self.user_id == old(self).user_id,
                self.attached == old(self).attached,
                self.chart_renderer == old(self).chart_renderer,
                self.time == old(self).time,
                self.judge_pause_time == old(self).judge_pause_time,
                self.start_wall_time == old(self).start_wall_time,
                self.target_time == old(self).target_time,
                self.unpause_signal == old(self).unpause_signal,
                self.fx == old(self).fx,
                self.viewport == old(self).viewport,
                self.touches == old(self).touches,
            decreases judges@.len() - i,
        {
            self.pending_judges.push_back(judges[i]);
            proof {
                assert(judges@.take(i + 1) =~= judges@.take(i as int).push(judges@[i as int]));
            }
            i = i + 1;
        }
        proof {
            assert(judges@.take(judges@.len() as int) =~= judges@);
        }
        if judges.len() > 0 {
            let last = judges[judges.len() - 1].time;
            self.unpause_signal = Some(last);
            self.target_time = Some(
                match self.target_time {
                    Some(x) => if x > last {
                        x
                    } else {
                        last
                    },
                    None => last,
                },
            );
        }
    }

    /// Takes in touch frames from upstream, in order; the last one raises the
    /// target time.
    pub fn push_touches(&mut self, frames: &Vec<TouchFrame>)
        requires
            old(self).wf(),
            frames@.len() > 0 ==> in_bound(frames@.last().time as int),
        ensures
            final(self).wf(),
            frames@.len() == 0 ==> final(self).target_time == old(self).target_time,
            frames@.len() > 0 ==> final(self).target_time == raised(old(self).target_time, frames@.last().time),
            (final(self).touches.active_view(), final(self).touches.fading_view()) == apply_frames(
                old(self).touches.active_view(),
                old(self).touches.fading_view(),
                frames@,
                frames@.len(),
            ),
            final(self).user_id == old(self).user_id,
            final(self).attached == old(self).attached,
            final(self).chart_renderer == old(self).chart_renderer,
            final(self).time == old(self).time,
            final(self).judge_pause_time == old(self).judge_pause_time,
            final(self).unpause_signal == old(self).unpause_signal,
            final(self).start_wall_time == old(self).start_wall_time,
            final(self).pending_judges@ == old(self).pending_judges@,
            final(self).fx == old(self).fx,
            final(self).viewport == old(self).viewport,
    {
        if frames.len() > 0 {
            self.note_touch_time(frames[frames.len() - 1].time);
        }
        let mut i: usize = 0;
        while i < frames.len()
            invariant
                self.wf(),
                0 <= i <= frames@.len(),
                frames@.len() == 0 ==> self.target_time == old(self).target_time,
                frames@.len() > 0 ==> self.target_time == raised(old(self).target_time, frames@.last().time),
                (self.touches.active_view(), self.touches.fading_view()) == apply_frames(
                    old(self).touches.active_view(),
                    old(self).touches.fading_view(),
                    frames@,
                    i as nat,
                ),
                self.user_id == old(self).user_id,
                self.attached == old(self).attached,
                self.chart_renderer == old(self).chart_renderer,
                self.time == old(self).time,
                self.judge_pause_time == old(self).judge_pause_time,
                self.unpause_signal == old(self).unpause_signal,
                self.start_wall_time == old(self).start_wall_time,
                self.pending_judges@ == old(self).pending_judges@,
                self.fx == old(self).fx,
                self.viewport == old(self).viewport,
            decreases frames@.len() - i,
        {
            self.touches.push_frame(&frames[i]);
            i = i + 1;
        }
    }

    /// Raises the target time to the time of the last touch frame.
    pub fn note_touch_time(&mut self, last_frame_time: i64)
        requires
            old(self).wf(),
            in_bound(last_frame_time as int),
        ensures
            final(self).wf(),
            final(self).target_time == raised(old(self).target_time, last_frame_time),
            final(self).same_state_but_target(old(self)),
    {
        self.target_time = Some(
            match self.target_time {
                Some(x) => if x > last_frame_time {
                    x
                } else {
                    last_frame_time
                },
                None => last_frame_time,
            },
        );
    }

    pub open spec fn same_state_but_target(&self, o: &GameScene) -> bool {
        &&& self.user_id == o.user_id
        &&& self.attached == o.attached
        &&& self.chart_renderer == o.chart_renderer
        &&& self.time == o.time
        &&& self.judge_pause_time == o.judge_pause_time
        &&& self.unpause_signal == o.unpause_signal
        &&& self.start_wall_time == o.start_wall_time
        &&& self.pending_judges@ == o.pending_judges@
        &&& self.fx == o.fx
        &&& self.viewport == o.viewport
        &&& self.touches == o.touches
    }

    pub open spec fn frame_due(&self, now: i64) -> bool {
        &&& self.attached
        &&& self.start_wall_time is Some
        &&& now >= start_deadline(self.start_wall_time.unwrap(), self.target_time)
    }

    /// Whether the start delay ends in this frame: the clock still stands
    /// and no judge pause holds it.
    pub open spec fn begins(&self) -> bool {
        self.time.pause_wall is Some && self.judge_pause_time is None
    }

    /// Whether a judge pause ends in this frame.
    pub open spec fn resumes(&self) -> bool {
        self.unpause_signal is Some && self.judge_pause_time is Some
    }

    /// A frame at wall time `now`; `audio_time` is the position the audio
    /// engine reports, if it reports one.
    pub fn render(&mut self, now: i64, audio_time: Option<i64>) -> (r: Frame)
        requires
            old(self).wf(),
            0 <= now <= TIME_BOUND,
        ensures
            final(self).wf(),
            !old(self).frame_due(now) ==> *final(self) == *old(self),
            !old(self).attached ==> r is Detached,
            old(self).attached && old(self).start_wall_time is None ==> r is NotStarted,
            old(self).attached && old(self).start_wall_time is Some && !old(self).frame_due(now)
                ==> r is Waiting,
            old(self).frame_due(now) ==> match r {
                Frame::Drawn { current_time, audio, events, sounds, particles } => {
                    let p = old(self).judge_pause_time.unwrap();
                    let base = match old(self).chart_renderer {
                        Some(cr) => if old(self).resumes() {
                            crate::engine::chart_cleared(cr.chart.model(), rewind_position(p) as i64)
                        } else {
                            cr.chart.model()
                        },
                        None => Seq::empty(),
                    };
                    &&& final(self).unpause_signal is None
                    &&& final(self).user_id == old(self).user_id
                    &&& final(self).attached
                    &&& final(self).start_wall_time == old(self).start_wall_time
                    &&& final(self).target_time == old(self).target_time
                    &&& final(self).fx == old(self).fx
                    &&& final(self).viewport == old(self).viewport
                    // the touch overlay at the frame time
                    &&& final(self).touches.active_view() == kept_of(old(self).touches.active_view(), current_time)
                    &&& final(self).touches.fading_view() == fresh_of(
                        old(self).touches.fading_view() + swept_of(old(self).touches.active_view(), current_time),
                        current_time,
                    )
                    // a judge pause without a signal: the frame stands still
                    &&& (old(self).judge_pause_time is Some && old(self).unpause_signal is None) ==> {
                        &&& current_time == p
                        &&& final(self).time.pause_wall is Some
                        &&& final(self).judge_pause_time == Some(p)
                        &&& audio@.len() == 0
                    }
                    // a judge pause with a signal: rewind and run
                    &&& old(self).resumes() ==> {
                        &&& current_time == rewind_position(p)
                        &&& final(self).time.spec_now(now) == rewind_position(p)
                        &&& final(self).time.pause_wall is None
                        &&& final(self).judge_pause_time is None
                        &&& audio@ == seq![AudioAction::Play(rewind_position(p) as i64)]
                    }
                    // the start delay ends: seek to the start position and run
                    &&& old(self).begins() ==> {
                        &&& current_time == start_position(old(self).target_time)
                        &&& final(self).time.spec_now(now) == start_position(old(self).target_time)
                        &&& final(self).judge_pause_time is None ==> final(self).time.pause_wall is None
                        &&& audio@[0] == AudioAction::Play(start_position(old(self).target_time) as i64)
                    }
                    // running: the audio position is the clock
                    &&& (old(self).judge_pause_time is None && !old(self).begins()) ==> {
                        &&& final(self).judge_pause_time is None ==> final(self).time.pause_wall is None
                        &&& (audio_time matches Some(a) && 0 <= a <= TIME_BOUND) ==> final(self).time.spec_now(now)
                            == audio_time.unwrap()
                    }
                    &&& (old(self).judge_pause_time is None && !old(self).begins()) ==> current_time
                        == match audio_time {
                        Some(a) => if 0 <= a <= TIME_BOUND {
                            a as int
                        } else {
                            clamp_time(old(self).time.spec_now(now)) as int
                        },
                        None => clamp_time(old(self).time.spec_now(now)) as int,
                    }
                    &&& match old(self).chart_renderer {
                        Some(cr) => {
                            let pass = judge_pass(
                                base,
                                old(self).pending_judges@,
                                current_time,
                                current_time > cr.time,
                                cr.mode,
                            );
                            let fin = final(self).chart_renderer.unwrap();
                            &&& final(self).chart_renderer is Some
                            &&& fin.chart.model() == pass.0
                            &&& fin.time == current_time
                            &&& fin.mode == cr.mode
                            &&& events@ == pass.1
                            &&& final(self).pending_judges@ == old(self).pending_judges@.skip(
                                ready_count(old(self).pending_judges@, current_time) as int,
                            )
                            &&& sounds@ == sounds_of(pass.0, events@)
                            &&& particles@ == particles_of(pass.0, old(self).fx, events@)
                            // a live note left unjudged too long pauses the scene
                            &&& (old(self).judge_pause_time is None || old(self).resumes()) ==> {
                                &&& final(self).judge_pause_time == if chart_has_overdue(pass.0, current_time) {
                                    Some(current_time)
                                } else {
                                    None
                                }
                                &&& chart_has_overdue(pass.0, current_time) ==> final(self).time.pause_wall
                                    is Some && audio@.last() == AudioAction::Pause
                            }
                        },
                        None => {
                            &&& final(self).chart_renderer is None
                            &&& events@.len() == 0
                            &&& sounds@.len() == 0
                            &&& particles@.len() == 0
                            &&& final(self).pending_judges@ == old(self).pending_judges@
                        },
                    }
                },
                _ => false,
            },
    {
        if !self.attached {
            return Frame::Detached;
        }
        let start = match self.start_wall_time {
            Some(s) => s,
            None => return Frame::NotStarted,
        };
        let deadline = match self.target_time {
            Some(t) => if t < START_DELAY {
                start + t
            } else {
                start + START_DELAY
            },
            None => start + START_DELAY,
        };
        if now < deadline {
            return Frame::Waiting;
        }
        let ghost s0 = *self;
        let mut audio: Vec<AudioAction> = Vec::new();
        // the start delay is over: seek and run
        let mut began = false;
        if self.time.paused() && self.judge_pause_time.is_none() {
            let pos = match self.target_time {
                Some(t) => if t - SEEK_OFFSET > 0 {
                    t - SEEK_OFFSET
                } else {
                    0
                },
                None => 0,
            };
            self.time.seek_to(pos, now);
            self.time.resume(now);
            audio.push(AudioAction::Play(pos));
            began = true;
        }
        // a judge event arrived during a judge pause: rewind and run
        let signal = self.unpause_signal;
        self.unpause_signal = None;
        let mut resumed = false;
        if signal.is_some() {
            if let Some(p) = self.judge_pause_time {
                self.judge_pause_time = None;
                let rt = if p - REWIND_ON_RESUME > 0 {
                    p - REWIND_ON_RESUME
                } else {
                    0
                };
                self.time.seek_to(rt, now);
                self.time.resume(now);
                match &mut self.chart_renderer {
                    Some(cr) => cr.clear_stale_notes(rt),
                    None => {},
                }
                audio.push(AudioAction::Play(rt));
                resumed = true;
            }
        }
        // the frame time
        let current_time = match self.judge_pause_time {
            Some(p) => p,
            None => {
                if !began && !resumed {
                    match audio_time {
                        Some(a) => {
                            if 0 <= a && a <= TIME_BOUND {
                                self.time.seek_to(a, now);
                            }
                        },
                        None => {},
                    }
                }
                let c = self.time.now(now);
                clamp_game_time(c)
            },
        };
        let ghost base = if self.chart_renderer is Some {
            self.chart_renderer.unwrap().chart.model()
        } else {
            Seq::empty()
        };
        proof {
            if s0.resumes() {
                lemma_cleared_no_overdue(s0.chart_renderer.unwrap().chart.model(), current_time);
            }
        }
        let fx = self.fx;
        let mut events: Vec<JudgeEvent> = Vec::new();
        let mut sounds: Vec<HitSound> = Vec::new();
        let mut particles: Vec<ParticleSpawn> = Vec::new();
        let mut overdue = false;
        match &mut self.chart_renderer {
            Some(cr) => {
                cr.update(current_time);
                events = cr.update_judges(&mut self.pending_judges);
                let (snd, prt) = judge_effects(&cr.chart, &events, fx);
                sounds = snd;
                particles = prt;
                overdue = cr.has_unjudged(current_time);
            },
            None => {},
        }
        proof {
            if s0.resumes() {
                let cr = self.chart_renderer.unwrap();
                lemma_judge_pass_no_overdue(
                    base,
                    s0.pending_judges@,
                    current_time,
                    current_time > s0.chart_renderer.unwrap().time,
                    s0.chart_renderer.unwrap().mode,
                    current_time,
                );
            }
        }
        // a live note left unjudged too long: pause for its judge event
        if self.judge_pause_time.is_none() && overdue {
            self.judge_pause_time = Some(current_time);
            self.time.pause(now);
            audio.push(AudioAction::Pause);
        }
        self.touches.sweep(current_time);
        Frame::Drawn { current_time, audio, events, sounds, particles }
    }

    /// The design ratio: the chart's, else 16:9.
    pub open spec fn design_ratio(&self) -> Ratio {
        match self.chart_renderer {
            Some(cr) => cr.design_ratio,
            None => Ratio { num: 16, den: 9 },
        }
    }

    /// Fits the viewport to a `width` by `height` canvas.
    pub fn resize(&mut self, width: u32, height: u32) -> (r: Viewport)
        requires
            old(self).wf(),
        ensures
            final(self).wf(),
            r == spec_letterbox(width, height, old(self).design_ratio()),
            *final(self) == (GameScene { viewport: Some(r), ..*old(self) }),
    {
        let design = match &self.chart_renderer {
            Some(cr) => cr.design_ratio,
            None => default_ratio(),
        };
        let vp = letterbox(width, height, design);
        self.viewport = Some(vp);
        vp
    }

    /// Marks the stale notes of the loaded chart as missed (see
    /// `ChartRenderer::clear_stale_notes`).
    pub fn clear_stale_notes(&mut self, player_time: i64)
        requires
            old(self).wf(),
        ensures
            final(self).wf(),
            match old(self).chart_renderer {
                Some(cr) => final(self).chart_renderer matches Some(f) && f.chart.model() == chart_cleared(
                    cr.chart.model(),
                    player_time,
                ) && f.time == cr.time && f.mode == cr.mode && f.advanced == cr.advanced && f.design_ratio
                    == cr.design_ratio,
                None => final(self).chart_renderer is None,
            },
            final(self).same_state_but_chart(old(self)),
    {
        match &mut self.chart_renderer {
            Some(cr) => cr.clear_stale_notes(player_time),
            None => {},
        }
    }

    /// Whether all but the chart is equal.
    pub open spec fn same_state_but_chart(&self, o: &GameScene) -> bool {
        &&& self.user_id == o.user_id
        &&& self.attached == o.attached
        &&& self.time == o.time
        &&& self.judge_pause_time == o.judge_pause_time
        &&& self.target_time == o.target_time
        &&& self.unpause_signal == o.unpause_signal
        &&& self.start_wall_time == o.start_wall_time
        &&& self.pending_judges@ == o.pending_judges@
        &&& self.fx == o.fx
        &&& self.viewport == o.viewport
        &&& self.touches == o.touches
    }
}

} // verus!
