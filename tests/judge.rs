use phira_monitor::effects::{judge_effects, HitFxInfo, ParticleSpawn};
use phira_monitor::engine::{Chart, ChartRenderer, JudgeLine};
use phira_monitor::judge::{
    HitSound, JudgeEvent, JudgeEventKind, JudgeMode, JudgeStatus, Judgement, MpJudgement, Note, NoteKind,
    UpstreamJudge,
};
use phira_monitor::info::UIElement;
use phira_monitor::viewport::default_ratio;
use std::collections::VecDeque;

fn one_note_chart(kind: NoteKind, time: i64, mode: JudgeMode) -> ChartRenderer {
    let chart = Chart { lines: vec![JudgeLine::new(vec![Note::new(kind, time, false)])] };
    let mut cr = ChartRenderer::new(chart, default_ratio());
    cr.mode = mode;
    cr
}

fn frame(cr: &mut ChartRenderer, q: &mut VecDeque<UpstreamJudge>, t: i64) -> Vec<JudgeEvent> {
    cr.update(t);
    cr.update_judges(q)
}

#[test]
fn single_note_autoplay() {
    let mut cr = one_note_chart(NoteKind::Click, 2000, JudgeMode::Autoplay);
    let mut q = VecDeque::new();
    assert!(frame(&mut cr, &mut q, 1000).is_empty());
    let events = frame(&mut cr, &mut q, 2000);
    assert_eq!(cr.chart.lines[0].notes[0].judge, JudgeStatus::Judged(2000, Judgement::Perfect));
    assert_eq!(
        events,
        vec![JudgeEvent { kind: JudgeEventKind::Judged(Judgement::Perfect), line_idx: 0, note_idx: 0 }]
    );
    let fx = HitFxInfo::new();
    let (sounds, particles) = judge_effects(&cr.chart, &events, Some(fx));
    assert_eq!(sounds, vec![HitSound::Click]);
    assert_eq!(particles, vec![ParticleSpawn { line_idx: 0, note_idx: 0, color: 0xe1ffec9f }]);
    let later = frame(&mut cr, &mut q, 2500);
    assert!(later.is_empty());
}

#[test]
fn strict_mode_miss() {
    let mut cr = one_note_chart(NoteKind::Click, 2000, JudgeMode::Strict);
    let mut q = VecDeque::new();
    assert!(frame(&mut cr, &mut q, 2220).is_empty());
    assert_eq!(cr.chart.lines[0].notes[0].judge, JudgeStatus::NotJudged);
    let events = frame(&mut cr, &mut q, 2221);
    assert!(events.is_empty());
    assert_eq!(cr.chart.lines[0].notes[0].judge, JudgeStatus::Judged(2221, Judgement::Miss));
    let (sounds, particles) = judge_effects(&cr.chart, &events, Some(HitFxInfo::new()));
    assert!(sounds.is_empty());
    assert!(particles.is_empty());
}

#[test]
fn hold_tick_cadence() {
    let mut cr = one_note_chart(NoteKind::Hold { end_time: 2000 }, 1000, JudgeMode::Live);
    let mut q = VecDeque::new();
    q.push_back(UpstreamJudge { time: 1000, line_id: 0, note_id: 0, judgement: MpJudgement::HoldPerfect });
    let mut all = Vec::new();
    let mut ticks_at = Vec::new();
    let mut completed_at = None;
    // 60 frames a second, from the start of the hold past its end
    let mut k: i64 = 0;
    loop {
        let t = 1000 + k * 1000 / 60;
        let events = frame(&mut cr, &mut q, t);
        for e in &events {
            match e.kind {
                JudgeEventKind::HoldTick(j) => {
                    assert_eq!(j, Judgement::Perfect);
                    ticks_at.push(t);
                }
                JudgeEventKind::HoldComplete(j) => {
                    assert_eq!(j, Judgement::Perfect);
                    completed_at = Some(t);
                }
                _ => {}
            }
        }
        all.extend(events);
        if t >= 2000 {
            break;
        }
        k += 1;
    }
    assert_eq!(ticks_at.len(), 6);
    for (i, t) in ticks_at.iter().enumerate() {
        let due = 1150 + 150 * i as i64;
        assert!(*t > due && *t <= due + 17, "tick {i} at {t}");
    }
    assert_eq!(completed_at, Some(2000));
    assert_eq!(all.first().unwrap().kind, JudgeEventKind::HoldStart);
    assert_eq!(all.last().unwrap().kind, JudgeEventKind::HoldComplete(Judgement::Perfect));
    assert_eq!(cr.chart.lines[0].notes[0].judge, JudgeStatus::Judged(2000, Judgement::Perfect));
    let (sounds, _) = judge_effects(&cr.chart, &all, Some(HitFxInfo::new()));
    assert_eq!(sounds, vec![HitSound::Click]);
}

#[test]
fn short_hold_has_no_tick() {
    let mut cr = one_note_chart(NoteKind::Hold { end_time: 1100 }, 1000, JudgeMode::Live);
    let mut q = VecDeque::new();
    q.push_back(UpstreamJudge { time: 1000, line_id: 0, note_id: 0, judgement: MpJudgement::HoldPerfect });
    let mut kinds = Vec::new();
    for t in [1000, 1016, 1033, 1050, 1066, 1083, 1100] {
        kinds.extend(frame(&mut cr, &mut q, t).into_iter().map(|e| e.kind));
    }
    assert_eq!(kinds, vec![JudgeEventKind::HoldStart, JudgeEventKind::HoldComplete(Judgement::Perfect)]);
}

#[test]
fn note_on_time_boundary() {
    let mut auto = one_note_chart(NoteKind::Click, 2000, JudgeMode::Autoplay);
    let mut strict = one_note_chart(NoteKind::Click, 2000, JudgeMode::Strict);
    let mut q = VecDeque::new();
    assert_eq!(frame(&mut auto, &mut q, 2000).len(), 1);
    assert!(frame(&mut strict, &mut q, 2000).is_empty());
    assert_eq!(strict.chart.lines[0].notes[0].judge, JudgeStatus::NotJudged);
}

#[test]
fn perfect_event_judges_once_with_one_sound_and_particle() {
    let mut n = Note::new(NoteKind::Flick, 1000, false);
    n.hitsound = Some(HitSound::Custom("ding".to_string()));
    let chart = Chart {
        lines: vec![JudgeLine::new(vec![Note::new(NoteKind::Drag, 500, false)]), JudgeLine::new(vec![n])],
    };
    let mut cr = ChartRenderer::new(chart, default_ratio());
    cr.mode = JudgeMode::Live;
    let mut q = VecDeque::new();
    q.push_back(UpstreamJudge { time: 1010, line_id: 1, note_id: 0, judgement: MpJudgement::Perfect });
    q.push_back(UpstreamJudge { time: 1300, line_id: 0, note_id: 0, judgement: MpJudgement::Good });
    let events = frame(&mut cr, &mut q, 1100);
    assert_eq!(q.len(), 1);
    assert_eq!(cr.chart.lines[1].notes[0].judge, JudgeStatus::Judged(1010, Judgement::Perfect));
    assert_eq!(cr.chart.lines[0].notes[0].judge, JudgeStatus::NotJudged);
    let fx = HitFxInfo { hit_fx_tinted: false, color_perfect: 1, color_good: 2 };
    let (sounds, particles) = judge_effects(&cr.chart, &events, Some(fx));
    assert_eq!(sounds, vec![HitSound::Custom("ding".to_string())]);
    assert_eq!(particles, vec![ParticleSpawn { line_idx: 1, note_idx: 0, color: 0xffffffff }]);
    let (_, none) = judge_effects(&cr.chart, &events, None);
    assert!(none.is_empty());
}

#[test]
fn events_for_missing_notes_and_fake_notes_are_dropped() {
    let chart = Chart { lines: vec![JudgeLine::new(vec![Note::new(NoteKind::Click, 100, true)])] };
    let mut cr = ChartRenderer::new(chart, default_ratio());
    cr.mode = JudgeMode::Live;
    let mut q = VecDeque::new();
    q.push_back(UpstreamJudge { time: 100, line_id: 0, note_id: 0, judgement: MpJudgement::Perfect });
    q.push_back(UpstreamJudge { time: 100, line_id: 3, note_id: 0, judgement: MpJudgement::Perfect });
    let events = frame(&mut cr, &mut q, 200);
    assert!(events.is_empty());
    assert!(q.is_empty());
    assert_eq!(cr.chart.lines[0].notes[0].judge, JudgeStatus::NotJudged);
    assert!(!cr.has_unjudged(10_000));
}

#[test]
fn stale_cleanup_and_overdue_check() {
    let chart = Chart {
        lines: vec![JudgeLine::new(vec![Note::new(NoteKind::Click, 3000, false), Note::new(NoteKind::Click, 3900, false)])],
    };
    let mut cr = ChartRenderer::new(chart, default_ratio());
    assert!(cr.has_unjudged(3401));
    assert!(!cr.has_unjudged(3400));
    cr.clear_stale_notes(4000);
    assert_eq!(cr.chart.lines[0].notes[0].judge, JudgeStatus::Judged(4000, Judgement::Miss));
    assert_eq!(cr.chart.lines[0].notes[1].judge, JudgeStatus::NotJudged);
}

#[test]
fn good_hold_and_drag_defaults() {
    let chart = Chart {
        lines: vec![JudgeLine::new(vec![
            Note::new(NoteKind::Hold { end_time: 1200 }, 1000, false),
            Note::new(NoteKind::Drag, 1000, false),
        ])],
    };
    let mut cr = ChartRenderer::new(chart, default_ratio());
    cr.mode = JudgeMode::Live;
    let mut q = VecDeque::new();
    q.push_back(UpstreamJudge { time: 1000, line_id: 0, note_id: 0, judgement: MpJudgement::HoldGood });
    q.push_back(UpstreamJudge { time: 1000, line_id: 0, note_id: 1, judgement: MpJudgement::Good });
    let events = frame(&mut cr, &mut q, 1000);
    let (sounds, particles) = judge_effects(&cr.chart, &events, Some(HitFxInfo::new()));
    assert_eq!(sounds, vec![HitSound::Click, HitSound::Drag]);
    assert_eq!(particles, vec![ParticleSpawn { line_idx: 0, note_idx: 1, color: 0xebb4e1ff }]);
    assert!(frame(&mut cr, &mut q, 1100).is_empty());
    let tick = frame(&mut cr, &mut q, 1151);
    assert_eq!(tick[0].kind, JudgeEventKind::HoldTick(Judgement::Good));
    let done = frame(&mut cr, &mut q, 1250);
    assert_eq!(done[0].kind, JudgeEventKind::HoldComplete(Judgement::Good));
    assert_eq!(cr.chart.lines[0].notes[0].judge, JudgeStatus::Judged(1250, Judgement::Good));
}

#[test]
fn chart_test_note_kind_order() {
    assert!(NoteKind::Hold { end_time: 0 }.order() < NoteKind::Drag.order());
    assert!(NoteKind::Drag.order() < NoteKind::Click.order());
    assert!(NoteKind::Click.order() < NoteKind::Flick.order());
}

#[test]
fn chart_test_chart_note_count() {
    let mut line = JudgeLine::new(Vec::new());
    line.notes.push(Note::new(NoteKind::Click, 1000, false));
    line.notes.push(Note::new(NoteKind::Click, 2000, false));
    let mut fake_note = Note::new(NoteKind::Click, 3000, false);
    fake_note.fake = true;
    line.notes.push(fake_note);
    let chart = Chart { lines: vec![line] };
    assert_eq!(chart.note_count(), 2);
    assert_eq!(chart.line_count(), 1);
}

#[test]
fn line_order_by_layer_without_ui_lines() {
    let mut lines = Vec::new();
    for (z, ui) in [(2, None), (0, None), (1, Some(UIElement::Score)), (0, None), (-1, None), (2, None)] {
        let mut l = JudgeLine::new(Vec::new());
        l.z_index = z;
        l.attach_ui = ui;
        lines.push(l);
    }
    let chart = Chart { lines };
    assert_eq!(chart.order(), vec![4, 1, 3, 0, 5]);
    assert!(Chart { lines: Vec::new() }.order().is_empty());
}
