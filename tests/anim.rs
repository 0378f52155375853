use phira_monitor::anim::{Anim, AnimChain, Keyframe, Sample};

fn anim(times: &[i64]) -> Anim<i32> {
    Anim::new(times.iter().enumerate().map(|(i, &t)| Keyframe::new(t, i as i32 * 10, 2)).collect())
}

#[test]
fn samples_hold_the_ends() {
    let mut a = anim(&[1000, 2000, 4000]);
    a.set_time(0);
    assert_eq!(a.now_sample(), Sample::At(0));
    a.set_time(1000);
    assert_eq!(a.now_sample(), Sample::At(0));
    a.set_time(4000);
    assert_eq!(a.now_sample(), Sample::At(2));
    a.set_time(9000);
    assert_eq!(a.now_sample(), Sample::At(2));
    assert_eq!(a.keyframes[2].value, 20);
}

#[test]
fn samples_between_keyframes() {
    let mut a = anim(&[1000, 2000, 4000]);
    a.set_time(1500);
    assert_eq!(a.now_sample(), Sample::Between { from: 0, elapsed: 500, span: 1000 });
    a.set_time(3000);
    assert_eq!(a.now_sample(), Sample::Between { from: 1, elapsed: 1000, span: 2000 });
    a.set_time(1200);
    assert_eq!(a.cursor, 0);
}

#[test]
fn cursor_moves_forward_with_time() {
    let mut a = anim(&[0, 100, 100, 300, 600]);
    let mut last = 0;
    for t in [0, 50, 100, 150, 299, 300, 700] {
        a.set_time(t);
        assert!(a.cursor >= last);
        last = a.cursor;
    }
    assert_eq!(last, 4);
}

#[test]
fn empty_and_fixed_animations() {
    let mut e: Anim<i32> = Anim::new(vec![]);
    e.set_time(500);
    assert_eq!(e.now_sample(), Sample::Empty);
    let mut f = Anim::fixed(42);
    f.set_time(-100);
    assert_eq!(f.now_sample(), Sample::At(0));
    assert_eq!(f.keyframes[0].value, 42);
}

#[test]
fn anim_test_fixed_anim() {
    let anim = Anim::fixed(42);
    assert_eq!(anim.now_sample(), Sample::At(0));
    assert_eq!(anim.keyframes[0].value, 42);
}

#[test]
fn chained_links_sample_together() {
    let mut c = AnimChain::new(vec![anim(&[0, 1000]), anim(&[500])]);
    c.set_time(250);
    assert_eq!(c.now_samples(), Some(vec![Sample::Between { from: 0, elapsed: 250, span: 1000 }, Sample::At(0)]));
    c.set_time(2000);
    assert_eq!(c.now_samples(), Some(vec![Sample::At(1), Sample::At(0)]));
    let empty: AnimChain<i32> = AnimChain::new(vec![Anim::new(vec![]), anim(&[0])]);
    assert_eq!(empty.now_samples(), None);
}
