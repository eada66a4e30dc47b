//! The closed set of cross-thread instructions the event thread may submit to
//! the driver loop, and the speed-change arithmetic they carry.

use vstd::prelude::*;

verus! {

/// A speed factor is carried in thousandths, so that 1000 stands for normal
/// speed and 500 for half speed. A factor of zero would make the target frame
/// duration unbounded, so dispatch clamps it up to [`MIN_SPEED_MILLI`].
pub const MIN_SPEED_MILLI: u32 = 1;

/// One cross-thread instruction for the driver loop. Delivery is through the
/// mailbox: single producer, single consumer, order preserved, at most one
/// consumed per clock step.
#[derive(Debug)]
pub enum Message {
    /// Forward raw controller bits to the machine; a dispatch failure is fatal.
    Input(usize, u8),
    /// Reset the machine to power-on state, keeping the loaded cartridge.
    Reset,
    /// Forward a redraw request to the presentation surface.
    DrawFrame,
    /// Select which of the eight debug palettes the machine reports; ids wrap
    /// cyclically in 0..8, and an id outside that range is a fatal dispatch.
    ChangePaletteId(u8),
    /// Recompute the target frame duration from the factor, in thousandths.
    ChangeEmulationSpeed(u32),
    /// Best-effort persistence of the machine state; failure is logged only.
    SaveState(String),
    /// Best-effort persistence of the game save; failure is logged only.
    Save(String),
    /// Forward a surface resize to the presentation layer.
    ResizeWindow(u32, u32),
    /// Flip the debug overlay flag and resize the presentation buffer.
    ToggleDebugWindow,
    /// Terminal command: attempt a final save, then stop the loop.
    CloseApp,
}

/// The largest base frame duration (in microseconds) the speed arithmetic
/// accepts without overflowing a `u64`.
pub const MAX_BASE_FRAME_MICROS: u64 = 0xFFFF_FFFF_FFFF_FFFFu64 / 1000;

/// The clamped factor actually used: zero is pulled up to the minimum.
pub open spec fn clamped_speed_spec(factor_milli: u32) -> u32 {
    if factor_milli < MIN_SPEED_MILLI {
        MIN_SPEED_MILLI
    } else {
        factor_milli
    }
}

/// Target frame duration in microseconds: the base duration divided by the
/// clamped speed factor (base * 1000 / factor, all in thousandths).
pub open spec fn target_frame_micros_spec(base_micros: u64, factor_milli: u32) -> u64 {
    ((base_micros * 1000) as int / clamped_speed_spec(factor_milli) as int) as u64
}

/// Computes the target frame duration for a speed factor given in thousandths.
pub fn target_frame_micros(base_micros: u64, factor_milli: u32) -> (target: u64)
    requires
        base_micros <= MAX_BASE_FRAME_MICROS,
    ensures
        target == target_frame_micros_spec(base_micros, factor_milli),
        target <= base_micros * 1000,
{
    let factor: u32 = if factor_milli < MIN_SPEED_MILLI {
        MIN_SPEED_MILLI
    } else {
        factor_milli
    };
    let scaled: u64 = base_micros * 1000;
    scaled / (factor as u64)
}

} // verus!
