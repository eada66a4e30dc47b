//! Decisions the event thread makes before submitting a command: cyclic
//! debug-palette selection, speed stepping, and log-verbosity selection.

use vstd::prelude::*;

verus! {

/// How far one key press moves the speed factor, in thousandths.
pub const SPEED_STEP_MILLI: u32 = 500;

/// The smallest factor the stepping keys reach, in thousandths: half speed.
/// Stepping below it would eventually reach zero and make the target frame
/// duration unbounded, so the factor is clamped here instead.
pub const MIN_UI_SPEED_MILLI: u32 = 500;

/// The palette id one step to the left, wrapping from 0 to 7.
pub open spec fn palette_left_spec(id: u8) -> u8 {
    if id == 0 {
        7
    } else {
        (id - 1) as u8
    }
}

/// The palette id one step to the right, wrapping from 7 to 0.
pub open spec fn palette_right_spec(id: u8) -> u8 {
    if id == 7 {
        0
    } else {
        (id + 1) as u8
    }
}

/// Steps the debug palette id down, wrapping from 0 to 7.
pub fn palette_left(id: u8) -> (next: u8)
    requires
        id < 8,
    ensures
        next == palette_left_spec(id),
        next < 8,
        next as int == (id + 7) % 8,
{
    if id == 0 {
        7
    } else {
        id - 1
    }
}

/// Steps the debug palette id up, wrapping from 7 to 0.
pub fn palette_right(id: u8) -> (next: u8)
    requires
        id < 8,
    ensures
        next == palette_right_spec(id),
        next < 8,
        next as int == (id + 1) % 8,
{
    if id == 7 {
        0
    } else {
        id + 1
    }
}

/// Stepping one way and back returns every palette id to itself, and the two
/// ends wrap onto each other: 0 stepped down gives 7, 7 stepped up gives 0.
pub proof fn lemma_palette_cycle(id: u8)
    requires
        id < 8,
    ensures
        palette_right_spec(palette_left_spec(id)) == id,
        palette_left_spec(palette_right_spec(id)) == id,
        palette_left_spec(0) == 7,
        palette_right_spec(7) == 0,
        palette_left_spec(id) as int == (id + 7) % 8,
        palette_right_spec(id) as int == (id + 1) % 8,
{
}

/// One speed-up key press: the factor grows by one step, saturating at the
/// largest representable factor.
pub fn speed_up(factor_milli: u32) -> (next: u32)
    ensures
        factor_milli <= u32::MAX - SPEED_STEP_MILLI ==> next == factor_milli + SPEED_STEP_MILLI,
        factor_milli > u32::MAX - SPEED_STEP_MILLI ==> next == u32::MAX,
        next >= factor_milli,
{
    if factor_milli <= u32::MAX - SPEED_STEP_MILLI {
        factor_milli + SPEED_STEP_MILLI
    } else {
        u32::MAX
    }
}

/// One slow-down key press: the factor shrinks by one step but never drops
/// below [`MIN_UI_SPEED_MILLI`].
pub fn speed_down(factor_milli: u32) -> (next: u32)
    ensures
        factor_milli >= MIN_UI_SPEED_MILLI + SPEED_STEP_MILLI ==> next == factor_milli
            - SPEED_STEP_MILLI,
        factor_milli < MIN_UI_SPEED_MILLI + SPEED_STEP_MILLI ==> next == MIN_UI_SPEED_MILLI,
        next >= MIN_UI_SPEED_MILLI,
{
    if factor_milli >= MIN_UI_SPEED_MILLI + SPEED_STEP_MILLI {
        factor_milli - SPEED_STEP_MILLI
    } else {
        MIN_UI_SPEED_MILLI
    }
}

/// The verbosity levels the logger can be asked for.
#[derive(Clone, Copy, PartialEq, Eq, Structural, Debug)]
pub enum LogLevel {
    Error,
    Warn,
    Info,
    Debug,
    Trace,
}

/// The level selected by a numeric verbosity argument: 0 through 4 pick a
/// level, anything larger falls back to the default.
pub open spec fn log_level_spec(digit: u8) -> LogLevel {
    if digit == 0 {
        LogLevel::Error
    } else if digit == 1 {
        LogLevel::Warn
    } else if digit == 2 {
        LogLevel::Info
    } else if digit == 3 {
        LogLevel::Debug
    } else if digit == 4 {
        LogLevel::Trace
    } else {
        LogLevel::Info
    }
}

/// The level used when no verbosity argument is given.
pub fn default_log_level() -> (level: LogLevel)
    ensures
        level == LogLevel::Info,
{
    LogLevel::Info
}

/// Whether a numeric verbosity argument is one the mapping defines; an
/// argument outside the range is reported and replaced by the default.
pub fn log_level_valid(digit: u8) -> (valid: bool)
    ensures
        valid == (digit <= 4),
{
    digit <= 4
}

/// Maps a numeric verbosity argument to its level.
pub fn log_level_for(digit: u8) -> (level: LogLevel)
    ensures
        level == log_level_spec(digit),
        digit > 4 ==> level == LogLevel::Info,
{
    if digit == 0 {
        LogLevel::Error
    } else if digit == 1 {
        LogLevel::Warn
    } else if digit == 2 {
        LogLevel::Info
    } else if digit == 3 {
        LogLevel::Debug
    } else if digit == 4 {
        LogLevel::Trace
    } else {
        LogLevel::Info
    }
}

} // verus!
