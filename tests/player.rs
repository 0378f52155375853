use phira_monitor::engine::{Chart, ChartRenderer, JudgeLine};
use phira_monitor::judge::{HitSound, JudgeMode, JudgeStatus, Judgement, Note, NoteKind};
use phira_monitor::player::ChartPlayer;
use phira_monitor::scene::AudioAction;
use phira_monitor::viewport::Ratio;

fn player() -> ChartPlayer {
    let notes = vec![Note::new(NoteKind::Click, 800, false), Note::new(NoteKind::Drag, 2000, false)];
    let cr = ChartRenderer::new(Chart { lines: vec![JudgeLine::new(notes)] }, Ratio { num: 4, den: 3 });
    ChartPlayer::new(cr, 0)
}

#[test]
fn player_autoplays_against_the_clock() {
    let mut p = player();
    let f = p.render(1000, None);
    assert_eq!(f.current_time, 1000);
    assert_eq!(f.sounds, vec![HitSound::Click]);
    assert_eq!(p.chart_renderer.chart.lines[0].notes[0].judge, JudgeStatus::Judged(1000, Judgement::Perfect));
    let g = p.render(1016, Some(2100));
    assert_eq!(g.current_time, 2100);
    assert_eq!(g.sounds, vec![HitSound::Drag]);
}

#[test]
fn player_pause_resume_and_seek() {
    let mut p = player();
    assert_eq!(p.pause(1500), vec![AudioAction::Pause]);
    let f = p.render(3000, Some(999));
    assert_eq!(f.current_time, 1500);
    assert_eq!(p.resume(4000), vec![AudioAction::Play(1500)]);
    p.set_time(500, 4000);
    assert_eq!(p.chart_renderer.chart.lines[0].notes[0].judge, JudgeStatus::NotJudged);
    let g = p.render(4000, None);
    assert_eq!(g.current_time, 500);
    assert!(g.events.is_empty());
    p.set_autoplay(false);
    assert_eq!(p.chart_renderer.mode, JudgeMode::Strict);
    let h = p.render(4521, None);
    assert_eq!(h.current_time, 1021);
    assert!(h.sounds.is_empty());
    assert_eq!(p.chart_renderer.chart.lines[0].notes[0].judge, JudgeStatus::Judged(1021, Judgement::Miss));
}

#[test]
fn player_resize_uses_chart_ratio() {
    let mut p = player();
    let v = p.resize(1600, 900);
    assert_eq!((v.x, v.width, v.height), (200, 1200, 900));
    assert_eq!(p.viewport, Some(v));
}
