use nesmulator_gui::ui::{
    default_log_level, log_level_for, log_level_valid, palette_left, palette_right, speed_down,
    speed_up, LogLevel, MIN_UI_SPEED_MILLI,
};

#[test]
fn palette_id_wraps_modulo_eight_both_directions() {
    assert_eq!(palette_left(0), 7);
    assert_eq!(palette_right(7), 0);
    for id in 0..8u8 {
        assert_eq!(palette_left(id), ((id + 7) % 8));
        assert_eq!(palette_right(id), ((id + 1) % 8));
        assert_eq!(palette_right(palette_left(id)), id);
        assert_eq!(palette_left(palette_right(id)), id);
    }
}

#[test]
fn speed_steps_by_half_and_never_reaches_zero() {
    assert_eq!(speed_up(1_000), 1_500);
    assert_eq!(speed_down(1_500), 1_000);
    assert_eq!(speed_down(1_000), 500);
    assert_eq!(speed_down(500), 500);
    assert_eq!(speed_down(0), MIN_UI_SPEED_MILLI);
    assert_eq!(speed_up(u32::MAX), u32::MAX);
}

#[test]
fn verbosity_digits_map_to_levels_with_a_default() {
    assert_eq!(log_level_for(0), LogLevel::Error);
    assert_eq!(log_level_for(1), LogLevel::Warn);
    assert_eq!(log_level_for(2), LogLevel::Info);
    assert_eq!(log_level_for(3), LogLevel::Debug);
    assert_eq!(log_level_for(4), LogLevel::Trace);
    assert_eq!(log_level_for(5), LogLevel::Info);
    assert_eq!(log_level_for(255), LogLevel::Info);
    assert_eq!(default_log_level(), LogLevel::Info);
    assert!(log_level_valid(4));
    assert!(!log_level_valid(5));
}
