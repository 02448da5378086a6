use gui_bridge::scale::{plan_font, Settings};

#[test]
fn default_settings_match_the_documented_defaults() {
    let s = Settings::default();
    assert!(s.settings_path.is_none());
    assert_eq!(s.font_size_millis, 13000);
    assert_eq!(s.font_oversample_h, 1);
    assert_eq!(s.font_oversample_v, 1);
    assert!(s.scale_affects_font_size);
    assert!(s.scale_affects_font_oversample);
}

#[test]
fn font_plan_scales_size_and_oversampling() {
    let s = Settings::default();
    // 13 * 1.5 = 19.5, rounded down to whole pixels.
    let plan = plan_font(&s, 1500);
    assert_eq!(plan.size_px, 19);
    assert_eq!(plan.oversample_h, 2);
    assert_eq!(plan.oversample_v, 2);
    assert_eq!(plan.font_scale_millis, 1500);
}

#[test]
fn font_plan_at_unit_scale_is_the_identity() {
    let s = Settings::default();
    let plan = plan_font(&s, 1000);
    assert_eq!(plan.size_px, 13);
    assert_eq!(plan.oversample_h, 1);
    assert_eq!(plan.oversample_v, 1);
    assert_eq!(plan.font_scale_millis, 1000);
}

#[test]
fn policy_flags_detach_font_from_the_scale() {
    let mut s = Settings::default();
    s.scale_affects_font_size = false;
    s.scale_affects_font_oversample = false;
    let plan = plan_font(&s, 2500);
    assert_eq!(plan.size_px, 13);
    assert_eq!(plan.oversample_h, 1);
    assert_eq!(plan.oversample_v, 1);
    assert_eq!(plan.font_scale_millis, 1000);
}

#[test]
fn oversampling_uses_the_scale_rounded_up() {
    let mut s = Settings::default();
    s.font_oversample_h = 2;
    s.font_oversample_v = 3;
    let exact = plan_font(&s, 2000);
    assert_eq!(exact.oversample_h, 4);
    assert_eq!(exact.oversample_v, 6);
    let above = plan_font(&s, 2001);
    assert_eq!(above.oversample_h, 6);
    assert_eq!(above.oversample_v, 9);
}
