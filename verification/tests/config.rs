use android_base::AppConfig;

#[test]
fn new_has_no_budget_and_resets() {
    let config = AppConfig::new();
    assert_eq!(config.num_frames, None);
    assert!(config.reset_on_start);
}

#[test]
fn frames_sets_the_budget() {
    let config = AppConfig::new().frames(Some(60));
    assert_eq!(config.num_frames, Some(60));
    assert!(config.reset_on_start);
}

#[test]
fn frames_clears_the_budget() {
    let config = AppConfig::new().frames(Some(3)).frames(None);
    assert_eq!(config.num_frames, None);
}

#[test]
fn frames_takes_zero_and_the_largest_budget() {
    assert_eq!(AppConfig::new().frames(Some(0)).num_frames, Some(0));
    assert_eq!(AppConfig::new().frames(Some(usize::MAX)).num_frames, Some(usize::MAX));
}

#[test]
fn reset_when_run_switches_the_reset() {
    let off = AppConfig::new().reset_when_run(false);
    assert!(!off.reset_on_start);
    assert_eq!(off.num_frames, None);
    let on = off.reset_when_run(true);
    assert!(on.reset_on_start);
}

#[test]
fn builders_leave_the_other_option_alone() {
    let config = AppConfig::new().frames(Some(7)).reset_when_run(false);
    assert_eq!(config, AppConfig { num_frames: Some(7), reset_on_start: false });
    let config = AppConfig::new().reset_when_run(false).frames(Some(7));
    assert_eq!(config, AppConfig { num_frames: Some(7), reset_on_start: false });
}

#[test]
fn a_builder_returns_a_copy() {
    let base = AppConfig::new();
    let changed = base.frames(Some(1)).reset_when_run(false);
    assert_eq!(base, AppConfig { num_frames: None, reset_on_start: true });
    assert_ne!(base, changed);
}
