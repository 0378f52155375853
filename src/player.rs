//! The standalone chart player: one chart, judged by autoplay or left to
//! miss, played against the audio engine's clock.

use crate::clock::{clamp_time, in_bound, TimeManager, TIME_BOUND};
use crate::effects::{judge_effects, particles_of, sounds_of, HitFxInfo, ParticleSpawn};
use crate::engine::{chart_reset, judge_pass, ChartRenderer};
use crate::judge::{HitSound, JudgeEvent, JudgeMode, UpstreamJudge};
use crate::scene::AudioAction;
use crate::viewport::{letterbox, spec_letterbox, Viewport};
use std::collections::VecDeque;
use vstd::prelude::*;

verus! {

/// What a frame of the player came to.
#[derive(Debug)]
pub struct PlayerFrame {
    pub current_time: i64,
    pub events: Vec<JudgeEvent>,
    pub sounds: Vec<HitSound>,
    pub particles: Vec<ParticleSpawn>,
}

pub struct ChartPlayer {
    pub time: TimeManager,
    pub chart_renderer: ChartRenderer,
    pub fx: Option<HitFxInfo>,
    pub viewport: Option<Viewport>,
}

impl ChartPlayer {
    pub open spec fn wf(&self) -> bool {
        &&& self.time.wf()
        &&& match self.time.pause_wall {
            Some(p) => 0 <= p,
            None => true,
        }
    }

    /// A player of `cr` in autoplay, its clock running from 0 at `wall`.
    pub fn new(cr: ChartRenderer, wall: i64) -> (r: ChartPlayer)
        requires
            0 <= wall <= TIME_BOUND,
        ensures
            r.wf(),
            r.time == (TimeManager { start_wall: wall, pause_wall: None }),
            r.chart_renderer == (ChartRenderer { mode: JudgeMode::Autoplay, ..cr }),
            r.fx is None,
            r.viewport is None,
    {
        let mut cr = cr;
        cr.mode = JudgeMode::Autoplay;
        ChartPlayer { time: TimeManager::new(wall), chart_renderer: cr, fx: None, viewport: None }
    }

    pub fn pause(&mut self, wall: i64) -> (r: Vec<AudioAction>)
        requires
            old(self).wf(),
            0 <= wall <= TIME_BOUND,
        ensures
            final(self).wf(),
            final(self).time.pause_wall == Some(old(self).time.reference(wall)),
            final(self).time.start_wall == old(self).time.start_wall,
            final(self).chart_renderer == old(self).chart_renderer,
            r@ == seq![AudioAction::Pause],
    {
        self.time.pause(wall);
        let mut v: Vec<AudioAction> = Vec::new();
        v.push(AudioAction::Pause);
        v
    }

    /// Runs the clock again and plays the music from where it stands.
    pub fn resume(&mut self, wall: i64) -> (r: Vec<AudioAction>)
        requires
            old(self).wf(),
            0 <= wall <= TIME_BOUND,
        ensures
            final(self).wf(),
            final(self).time.pause_wall is None,
            final(self).time.start_wall == match old(self).time.pause_wall {
                Some(p) => clamp_time(old(self).time.start_wall + (wall - p)),
                None => old(self).time.start_wall,
            },
            final(self).chart_renderer == old(self).chart_renderer,
            r@ == seq![AudioAction::Play(clamp_time(final(self).time.spec_now(wall) as int))],
    {
        self.time.resume(wall);
        let now = self.time.now(wall);
        let pos = if now > TIME_BOUND {
            TIME_BOUND
        } else if now < -TIME_BOUND {
            -TIME_BOUND
        } else {
            now
        };
        let mut v: Vec<AudioAction> = Vec::new();
        v.push(AudioAction::Play(pos));
        v
    }

    /// Jumps to game time `pos`; every note waits for its judgement again.
    pub fn set_time(&mut self, pos: i64, wall: i64)
        requires
            old(self).wf(),
            0 <= wall <= TIME_BOUND,
            in_bound(pos as int),
        ensures
            final(self).wf(),
            final(self).time.start_wall == clamp_time(old(self).time.reference(wall) - pos),
            final(self).time.pause_wall == old(self).time.pause_wall,
            final(self).chart_renderer.chart.model() == chart_reset(old(self).chart_renderer.chart.model()),
            final(self).chart_renderer.mode == old(self).chart_renderer.mode,
    {
        self.time.seek_to(pos, wall);
        self.chart_renderer.reset_judges();
    }

    /// Autoplay on, or strict judging (misses only) off.
    pub fn set_autoplay(&mut self, flag: bool)
        ensures
            final(self).chart_renderer.mode == if flag {
                JudgeMode::Autoplay
            } else {
                JudgeMode::Strict
            },
            final(self).chart_renderer.chart == old(self).chart_renderer.chart,
            final(self).time == old(self).time,
    {
        self.chart_renderer.mode = if flag {
            JudgeMode::Autoplay
        } else {
            JudgeMode::Strict
        };
    }

    /// A frame at wall time `now`. While playing, the audio position (when
    /// the engine reports one) is the clock; while paused the clock stands.
    pub fn render(&mut self, now: i64, audio_time: Option<i64>) -> (r: PlayerFrame)
        requires
            old(self).wf(),
            0 <= now <= TIME_BOUND,
        ensures
            final(self).wf(),
            r.current_time == if old(self).time.pause_wall is None && audio_time is Some && 0
                <= audio_time.unwrap() <= TIME_BOUND {
                audio_time.unwrap() as int
            } else {
                clamp_time(old(self).time.spec_now(now)) as int
            },
            ({
                let cr = old(self).chart_renderer;
                let pass = judge_pass(
                    cr.chart.model(),
                    Seq::<UpstreamJudge>::empty(),
                    r.current_time,
                    r.current_time > cr.time,
                    cr.mode,
                );
                &&& final(self).chart_renderer.chart.model() == pass.0
                &&& r.events@ == pass.1
                &&& r.sounds@ == sounds_of(pass.0, r.events@)
                &&& r.particles@ == particles_of(pass.0, old(self).fx, r.events@)
            }),
    {
        if !self.time.paused() {
            match audio_time {
                Some(a) => {
                    if 0 <= a && a <= TIME_BOUND {
                        self.time.seek_to(a, now);
                    }
                },
                None => {},
            }
        }
        let c = self.time.now(now);
        let current_time = if c > TIME_BOUND {
            TIME_BOUND
        } else if c < -TIME_BOUND {
            -TIME_BOUND
        } else {
            c
        };
        self.chart_renderer.update(current_time);
        let mut none: VecDeque<UpstreamJudge> = VecDeque::new();
        let events = self.chart_renderer.update_judges(&mut none);
        let (sounds, particles) = judge_effects(&self.chart_renderer.chart, &events, self.fx);
        PlayerFrame { current_time, events, sounds, particles }
    }

    /// Fits the viewport to a `width` by `height` canvas.
    pub fn resize(&mut self, width: u32, height: u32) -> (r: Viewport)
        ensures
            r == spec_letterbox(width, height, old(self).chart_renderer.design_ratio),
            final(self).viewport == Some(r),
            final(self).time == old(self).time,
            final(self).chart_renderer == old(self).chart_renderer,
    {
        let vp = letterbox(width, height, self.chart_renderer.design_ratio);
        self.viewport = Some(vp);
        vp
    }
}

} // verus!
