use phira_monitor::bpm::Triple;

#[test]
fn test_triple() {
    let triple = Triple::new(1, 1, 2);
    let (num, den) = triple.beats_fraction().unwrap();
    let beats = num as f64 / den as f64;
    assert!((beats - 1.5).abs() < 0.001);
}

#[test]
fn triple_with_zero_denominator_has_no_fraction() {
    assert_eq!(Triple::new(3, 1, 0).beats_fraction(), None);
    assert_eq!(Triple::new(-2, 3, 4).beats_fraction(), Some((-5, 4)));
}
