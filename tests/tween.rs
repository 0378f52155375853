use phira_monitor::tween::{easing_from, get_tween, StaticTween, TweenMajor, TweenMinor, RPE_TWEEN_MAP};

#[test]
fn test_tween_map() {
    assert_eq!(RPE_TWEEN_MAP[0], 2);
    assert_eq!(RPE_TWEEN_MAP[1], 2);
}

#[test]
fn easing_ids_follow_family_and_variant() {
    assert_eq!(easing_from(TweenMajor::Plain, TweenMinor::InOut), 2);
    assert_eq!(easing_from(TweenMajor::Sine, TweenMinor::In), 3);
    assert_eq!(easing_from(TweenMajor::Quad, TweenMinor::Out), 7);
    assert_eq!(easing_from(TweenMajor::Bounce, TweenMinor::InOut), 32);
    assert_eq!(StaticTween(easing_from(TweenMajor::Elastic, TweenMinor::In)).0, 27);
}

#[test]
fn rpe_table_matches_families() {
    assert_eq!(RPE_TWEEN_MAP[2], easing_from(TweenMajor::Sine, TweenMinor::Out));
    assert_eq!(RPE_TWEEN_MAP[13], easing_from(TweenMajor::Quart, TweenMinor::InOut));
    assert_eq!(RPE_TWEEN_MAP[29], easing_from(TweenMajor::Elastic, TweenMinor::InOut));
}

#[test]
fn get_tween_clamps_unknown_numbers_to_linear() {
    assert_eq!(get_tween(-5), 2);
    assert_eq!(get_tween(0), 2);
    assert_eq!(get_tween(5), easing_from(TweenMajor::Quad, TweenMinor::In));
    assert_eq!(get_tween(30), 2);
    assert_eq!(get_tween(1000), 2);
}
