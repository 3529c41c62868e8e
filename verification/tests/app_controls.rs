//! UI control state: toggles and the clamped speed multiplier.

#[test]
fn test_pause_toggles_correctly() {
    let mut paused = false;
    paused = !paused;
    assert!(paused, "First toggle should pause");
    paused = !paused;
    assert!(!paused, "Second toggle should unpause");
}

#[test]
fn test_pause_defaults_to_false() {
    let paused: bool = false;
    assert!(!paused);
}

#[test]
fn test_speed_multiplier_defaults_to_1_0() {
    let speed: f32 = 1.0;
    assert!((speed - 1.0).abs() < f32::EPSILON);
}

#[test]
fn test_speed_increment_by_0_25() {
    let mut speed: f32 = 1.0;
    speed = (speed + 0.25).clamp(0.25, 4.0);
    speed = (speed + 0.25).clamp(0.25, 4.0);
    speed = (speed + 0.25).clamp(0.25, 4.0);
    assert!(
        (speed - 1.75).abs() < f32::EPSILON,
        "Three increments from 1.0 should yield 1.75"
    );
}

#[test]
fn test_speed_decrement_by_0_25() {
    let mut speed: f32 = 1.0;
    speed = (speed - 0.25).clamp(0.25, 4.0);
    assert!(
        (speed - 0.75).abs() < f32::EPSILON,
        "One decrement from 1.0 should yield 0.75"
    );
}

#[test]
fn test_speed_no_underflow_at_minimum() {
    let mut speed: f32 = 0.25;
    speed = (speed - 0.25).clamp(0.25, 4.0);
    assert!(
        (speed - 0.25).abs() < f32::EPSILON,
        "Speed should not go below 0.25"
    );
}

#[test]
fn test_speed_no_overflow_at_maximum() {
    let mut speed: f32 = 4.0;
    speed = (speed + 0.25).clamp(0.25, 4.0);
    assert!(
        (speed - 4.0).abs() < f32::EPSILON,
        "Speed should not exceed 4.0"
    );
}

#[test]
fn test_hud_toggle() {
    let mut hide_hud = false;
    hide_hud = !hide_hud;
    assert!(hide_hud, "First toggle should hide HUD");
    hide_hud = !hide_hud;
    assert!(!hide_hud, "Second toggle should show HUD");
}

#[test]
fn test_help_text_toggle() {
    let mut show_help = false;
    show_help = !show_help;
    assert!(show_help, "First toggle should show help");
    show_help = !show_help;
    assert!(!show_help, "Second toggle should hide help");
}

#[test]
fn test_help_text_fits_min_width() {
    let help_text = "q:Quit p:Pause r:Refresh h:HUD +/-:Speed ?:Help";
    assert_eq!(
        help_text.len(),
        47,
        "Help text should be exactly 47 characters"
    );
    assert!(
        help_text.len() < 70,
        "Help text must fit within MIN_WIDTH=70"
    );
}

#[test]
fn test_rapid_toggles_return_to_original() {
    let mut paused = false;
    for _ in 0..100 {
        paused = !paused;
    }
    assert!(
        !paused,
        "100 toggles (even) should return to original state"
    );
}
