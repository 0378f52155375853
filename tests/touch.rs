use phira_monitor::touch::{touch_alpha, TouchFrame, TouchOverlay, TouchPoint};

fn frame(time: i64, points: &[(i8, i32, i32)]) -> TouchFrame {
    TouchFrame { time, points: points.iter().map(|&(finger, x, y)| TouchPoint { finger, x, y }).collect() }
}

#[test]
fn fingers_press_move_and_lift() {
    let mut o = TouchOverlay::new();
    o.push_frame(&frame(100, &[(0, 1, 2), (3, 5, 5)]));
    o.push_frame(&frame(150, &[(0, 2, 3)]));
    assert_eq!(o.active.len(), 2);
    assert_eq!(o.active[0].path, vec![(100, 1, 2), (150, 2, 3)]);
    assert_eq!(o.active[0].start_time, 100);
    assert_eq!(o.active[0].last_update, 150);
    // finger 3 lifted: sent as !3 == -4
    o.push_frame(&frame(200, &[(-4, 0, 0)]));
    assert_eq!(o.active.len(), 1);
    assert_eq!(o.fading.len(), 1);
    assert_eq!(o.fading[0].finger, 3);
    assert_eq!(o.fading[0].end_time, Some(200));
    // lifting an unknown finger changes nothing
    o.push_frame(&frame(210, &[(-10, 0, 0)]));
    assert_eq!(o.active.len(), 1);
    assert_eq!(o.fading.len(), 1);
}

#[test]
fn fade_out_alpha() {
    let mut o = TouchOverlay::new();
    o.push_frame(&frame(1000, &[(1, 0, 0)]));
    assert_eq!(touch_alpha(&o.active[0], 999), None);
    assert_eq!(touch_alpha(&o.active[0], 5000), Some(600));
    o.push_frame(&frame(2000, &[(!1, 0, 0)]));
    let t = &o.fading[0];
    assert_eq!(touch_alpha(t, 1999), Some(600));
    assert_eq!(touch_alpha(t, 2000), Some(600));
    assert_eq!(touch_alpha(t, 2150), Some(300));
    assert_eq!(touch_alpha(t, 2299), Some(2));
    assert_eq!(touch_alpha(t, 2300), None);
}

#[test]
fn sweep_ends_stale_touches_and_drops_faded_ones() {
    let mut o = TouchOverlay::new();
    o.push_frame(&frame(0, &[(1, 0, 0), (2, 0, 0)]));
    o.push_frame(&frame(1500, &[(2, 1, 1)]));
    o.sweep(2001);
    assert_eq!(o.active.len(), 1);
    assert_eq!(o.active[0].finger, 2);
    assert_eq!(o.fading.len(), 1);
    assert_eq!(o.fading[0].end_time, Some(2001));
    o.sweep(2301);
    assert_eq!(o.fading.len(), 1);
    o.sweep(2302);
    assert!(o.fading.is_empty());
}
