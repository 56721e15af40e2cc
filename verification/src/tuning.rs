//! The fixed parameters of the initialization sequence.

use crate::orientation::MADCTL_BGR;
use vstd::prelude::*;

verus! {

/// The pause, in milliseconds, after a command that the controller needs
/// time to carry out.
pub const SETTLE_MS: u8 = 200;

/// Frame rate in normal and in idle mode: line period, front porch, back porch.
pub const FRAME_RATE: [u8; 3] = [0x01, 0x2C, 0x2D];

/// Frame rate in partial mode, for dot inversion and for line inversion.
pub const FRAME_RATE_PARTIAL: [u8; 6] = [0x01, 0x2C, 0x2D, 0x01, 0x2C, 0x2D];

/// Display inversion control: line inversion in normal, idle and partial
/// mode.
pub const INVERSION_CONTROL: [u8; 1] = [0x07];

/// Power control 1: the supply voltages.
pub const POWER_1: [u8; 3] = [0xA2, 0x02, 0x84];

/// Power control 2: the high and low voltages of the row drivers.
pub const POWER_2: [u8; 1] = [0xC5];

/// Power control 3: amplifier current and boost frequency in normal mode.
pub const POWER_3: [u8; 2] = [0x0A, 0x00];

/// Power control 4: amplifier current and boost frequency in idle mode.
pub const POWER_4: [u8; 2] = [0x8A, 0x2A];

/// Power control 5: amplifier current and boost frequency in partial mode.
pub const POWER_5: [u8; 2] = [0x8A, 0xEE];

/// VCOM control: the common electrode voltage.
pub const VCOM: [u8; 1] = [0x0E];

/// Colour mode: 16 bits per pixel.
pub const COLOR_MODE: [u8; 1] = [0x05];

/// Memory access control for a panel with RGB colour order.
pub const MEMORY_ACCESS_RGB: [u8; 1] = [0x00];

/// Memory access control for a panel with BGR colour order.
pub const MEMORY_ACCESS_BGR: [u8; 1] = [MADCTL_BGR];

} // verus!
