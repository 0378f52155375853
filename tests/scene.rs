use phira_monitor::engine::{Chart, ChartRenderer, JudgeLine};
use phira_monitor::judge::{JudgeStatus, Judgement, MpJudgement, Note, NoteKind, UpstreamJudge};
use phira_monitor::scene::{AudioAction, Frame, GameScene};
use phira_monitor::viewport::{default_ratio, Ratio, Viewport};

fn chart(notes: Vec<Note>) -> ChartRenderer {
    ChartRenderer::new(Chart { lines: vec![JudgeLine::new(notes)] }, default_ratio())
}

fn drawn_time(f: &Frame) -> i64 {
    match f {
        Frame::Drawn { current_time, .. } => *current_time,
        _ => panic!("no frame drawn"),
    }
}

fn drawn_audio(f: &Frame) -> Vec<AudioAction> {
    match f {
        Frame::Drawn { audio, .. } => audio.clone(),
        _ => panic!("no frame drawn"),
    }
}

#[test]
fn start_delay_then_play_from_zero() {
    let mut s = GameScene::new_headless(7, 0);
    assert!(matches!(s.render(100, None), Frame::Detached));
    s.attach_canvas(0);
    assert!(matches!(s.render(100, None), Frame::NotStarted));
    let _ = s.load_chart(chart(vec![Note::new(NoteKind::Click, 10_000, false)]), 0);
    s.start(1000);
    assert!(matches!(s.render(5499, None), Frame::Waiting));
    let f = s.render(5500, None);
    assert_eq!(drawn_time(&f), 0);
    assert_eq!(drawn_audio(&f), vec![AudioAction::Play(0)]);
    let g = s.render(6500, None);
    assert_eq!(drawn_time(&g), 1000);
    let h = s.render(6516, Some(990));
    assert_eq!(drawn_time(&h), 990);
}

#[test]
fn pause_resume_rewind() {
    let mut s = GameScene::new_headless(1, 0);
    s.attach_canvas(0);
    let notes = vec![
        Note::new(NoteKind::Click, 4550, false),
        Note::new(NoteKind::Click, 3500, false),
        Note::new(NoteKind::Click, 3900, false),
    ];
    let _ = s.load_chart(chart(notes), 0);
    s.start(0);
    let first = s.render(4500, None);
    assert_eq!(drawn_time(&first), 0);
    // the note at 3500 is overdue already at 3901; take it out of the picture
    s.push_judges(&vec![UpstreamJudge { time: 3500, line_id: 0, note_id: 1, judgement: MpJudgement::Good }]);
    s.push_judges(&vec![UpstreamJudge { time: 3900, line_id: 0, note_id: 2, judgement: MpJudgement::Good }]);
    let _ = s.render(8400, Some(3950));
    let _ = s.render(8500, Some(4000));
    assert_eq!(s.judge_pause_time, None);
    let f = s.render(9000, Some(5000));
    assert_eq!(drawn_time(&f), 5000);
    assert_eq!(s.judge_pause_time, Some(5000));
    assert!(s.time.paused());
    assert_eq!(drawn_audio(&f), vec![AudioAction::Pause]);
    // frozen until a judge event arrives
    let g = s.render(9100, Some(5100));
    assert_eq!(drawn_time(&g), 5000);
    s.push_judges(&vec![UpstreamJudge { time: 5000, line_id: 0, note_id: 0, judgement: MpJudgement::Perfect }]);
    let h = s.render(9200, None);
    assert_eq!(drawn_time(&h), 4000);
    assert_eq!(drawn_audio(&h), vec![AudioAction::Play(4000)]);
    assert!(!s.time.paused());
    assert_eq!(s.judge_pause_time, None);
    let cr = s.chart_renderer.as_ref().unwrap();
    assert_eq!(cr.chart.lines[0].notes[0].judge, JudgeStatus::NotJudged);
    assert_eq!(s.pending_judges.len(), 1);
    let _ = s.render(10_200, None);
    let cr = s.chart_renderer.as_ref().unwrap();
    assert_eq!(cr.chart.lines[0].notes[0].judge, JudgeStatus::Judged(5000, Judgement::Perfect));
    assert!(s.pending_judges.is_empty());
}

#[test]
fn rewind_clears_stale_notes() {
    let mut s = GameScene::new_headless(1, 0);
    s.attach_canvas(0);
    let notes = vec![Note::new(NoteKind::Click, 3700, false), Note::new(NoteKind::Click, 3850, false)];
    let _ = s.load_chart(chart(notes), 0);
    s.start(0);
    let _ = s.render(4500, None);
    let f = s.render(9000, Some(4500));
    assert_eq!(drawn_time(&f), 4500);
    assert_eq!(s.judge_pause_time, Some(4500));
    s.push_judges(&vec![UpstreamJudge { time: 4600, line_id: 0, note_id: 1, judgement: MpJudgement::Bad }]);
    let g = s.render(9100, None);
    assert_eq!(drawn_time(&g), 3500);
    let cr = s.chart_renderer.as_ref().unwrap();
    assert_eq!(cr.chart.lines[0].notes[0].judge, JudgeStatus::NotJudged);
    let mut s2 = GameScene::new_headless(2, 0);
    s2.attach_canvas(0);
    let _ = s2.load_chart(chart(vec![Note::new(NoteKind::Click, 3000, false)]), 0);
    s2.start(0);
    let _ = s2.render(4500, None);
    let _ = s2.render(9000, Some(4500));
    s2.push_judges(&vec![UpstreamJudge { time: 4600, line_id: 0, note_id: 0, judgement: MpJudgement::Bad }]);
    let _ = s2.render(9100, None);
    let cr2 = s2.chart_renderer.as_ref().unwrap();
    assert_eq!(cr2.chart.lines[0].notes[0].judge, JudgeStatus::Judged(3500, Judgement::Miss));
}

#[test]
fn mid_game_attach() {
    let mut s = GameScene::new_headless(3, 0);
    let _ = s.load_chart(chart(vec![]), 0);
    s.start(1000);
    s.push_judges(&vec![UpstreamJudge { time: 37_400, line_id: 0, note_id: 0, judgement: MpJudgement::Perfect }]);
    assert_eq!(s.target_time, Some(37_400));
    let w = 50_000;
    s.attach_canvas(w);
    assert!(matches!(s.render(5499, None), Frame::Waiting));
    let f = s.render(5500, None);
    assert_eq!(drawn_time(&f), 37_300);
    assert_eq!(drawn_audio(&f), vec![AudioAction::Play(37_300)]);
}

#[test]
fn early_evidence_shortens_the_start_delay() {
    let mut s = GameScene::new_headless(4, 0);
    s.attach_canvas(0);
    let _ = s.load_chart(chart(vec![]), 0);
    s.start(2000);
    s.note_touch_time(1200);
    assert_eq!(s.target_time, Some(1200));
    assert!(matches!(s.render(3199, None), Frame::Waiting));
    let f = s.render(3200, None);
    assert_eq!(drawn_time(&f), 1100);
    s.note_touch_time(900);
    assert_eq!(s.target_time, Some(1200));
}

#[test]
fn attach_detach_attach_keeps_state() {
    let mut s = GameScene::new_headless(5, 0);
    let _ = s.load_chart(chart(vec![Note::new(NoteKind::Click, 500, false)]), 0);
    s.start(100);
    s.push_judges(&vec![UpstreamJudge { time: 700, line_id: 0, note_id: 0, judgement: MpJudgement::Good }]);
    s.attach_canvas(200);
    let clock = s.time;
    let target = s.target_time;
    assert_eq!(s.detach_canvas(), vec![AudioAction::Pause]);
    assert!(!s.has_canvas());
    assert!(s.detach_canvas().is_empty());
    s.attach_canvas(900);
    assert!(s.has_canvas());
    assert_eq!(s.time, clock);
    assert_eq!(s.target_time, target);
    assert_eq!(s.pending_judges.len(), 1);
    assert!(s.has_chart());
}

#[test]
fn resize_letterboxes_wide_screens() {
    let mut s = GameScene::new_headless(6, 0);
    let a = s.resize(1920, 1080);
    assert_eq!(a, Viewport { x: 0, y: 0, width: 1920, height: 1080, aspect: Ratio { num: 1920, den: 1080 } });
    let b = s.resize(2560, 1080);
    assert_eq!(b, Viewport { x: 320, y: 0, width: 1920, height: 1080, aspect: Ratio { num: 16, den: 9 } });
    let c = s.resize(2560, 1080);
    assert_eq!(b, c);
    assert_eq!(s.viewport, Some(b));
    let d = s.resize(1000, 1000);
    assert_eq!(d.width, 1000);
    assert_eq!(d.height, 1000);
}

#[test]
fn clear_drops_chart_and_buffers() {
    let mut s = GameScene::new_headless(8, 0);
    let _ = s.load_chart(chart(vec![]), 0);
    s.push_judges(&vec![UpstreamJudge { time: 1, line_id: 0, note_id: 0, judgement: MpJudgement::Miss }]);
    s.clear(10);
    assert!(!s.has_chart());
    assert!(s.pending_judges.is_empty());
    assert_eq!(s.target_time, None);
    assert!(s.time.paused());
}

#[test]
fn scene_clears_stale_notes_of_its_chart() {
    let mut s = GameScene::new_headless(9, 0);
    s.clear_stale_notes(5000);
    assert!(!s.has_chart());
    let notes = vec![Note::new(NoteKind::Click, 1000, false), Note::new(NoteKind::Click, 4900, false)];
    let _ = s.load_chart(chart(notes), 0);
    s.clear_stale_notes(5000);
    let cr = s.chart_renderer.as_ref().unwrap();
    assert_eq!(cr.chart.lines[0].notes[0].judge, JudgeStatus::Judged(5000, Judgement::Miss));
    assert_eq!(cr.chart.lines[0].notes[1].judge, JudgeStatus::NotJudged);
}
