use phira_monitor::effects::{default_good, default_perfect, default_tinted, HitFxInfo};
use phira_monitor::info::{ChartSettings, UIElement};
use phira_monitor::particle::AtlasConfig;

#[test]
fn pack_defaults() {
    assert_eq!(default_perfect(), 0xe1ffec9f);
    assert_eq!(default_good(), 0xebb4e1ff);
    assert!(default_tinted());
    let fx = HitFxInfo::new();
    assert_eq!(fx.fx_perfect(), 0xe1ffec9f);
    assert_eq!(fx.fx_good(), 0xebb4e1ff);
}

#[test]
fn atlas_and_settings() {
    let a = AtlasConfig::new(5, 6, 0, 29);
    assert_eq!((a.n, a.m, a.start_index, a.end_index), (5, 6, 0, 29));
    let s = ChartSettings::new();
    assert!(!s.pe_alpha_extension && !s.hold_partial_cover);
}

#[test]
fn ui_element_codes() {
    assert_eq!(UIElement::Pause.code(), 1);
    assert_eq!(UIElement::Level.code(), 7);
    assert_eq!(UIElement::from_code(3), Some(UIElement::Combo));
    assert_eq!(UIElement::from_code(0), None);
    assert_eq!(UIElement::from_code(8), None);
}
