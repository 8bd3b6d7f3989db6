//! The matrix controller that the display front-ends drive.
use vstd::prelude::*;

verus! {

/// Failure reported by a matrix controller while sending data to it.
#[derive(Debug, Clone, Copy, PartialEq, Eq, Structural)]
pub enum DataError {
    /// The serial bus failed.
    Spi,
    /// An output pin failed, or the request made no sense in the display's
    /// current state.
    Pin,
}

/// A single 8×8 matrix controller (chip address 0 of its chain), as the
/// board's driver exposes it. Each call may fail; nothing is assumed about
/// which calls succeed.
pub trait Panel {
    /// Leaves shutdown mode.
    fn power_on(&mut self) -> Result<(), DataError>;

    /// Enters shutdown mode: the matrix goes dark and keeps its contents.
    fn power_off(&mut self) -> Result<(), DataError>;

    /// Sets every row to zero.
    fn clear_display(&mut self) -> Result<(), DataError>;

    /// Writes the eight row bytes of a frame.
    fn write_raw(&mut self, frame: &[u8; 8]) -> Result<(), DataError>;

    /// Sets the controller's intensity register.
    fn set_intensity(&mut self, intensity: u8) -> Result<(), DataError>;
}

/// Largest brightness, in percent, that a display accepts.
pub const MAX_BRIGHTNESS: u8 = 100;

/// Brightness `percent` scaled to the range `0..=255`, rounded down.
pub open spec fn scaled_brightness(percent: u8) -> int {
    percent * 255 / 100
}

/// Brightness `percent` scaled to the range `0..=255` (rounded down), as a
/// value for the intensity register; anything above 100 % gives 255.
pub fn intensity_for(percent: u8) -> (r: u8)
    ensures
        r as int == if scaled_brightness(percent) > 255 {
            255
        } else {
            scaled_brightness(percent)
        },
{
    let scaled: u32 = percent as u32 * 255 / 100;
    if scaled > 255 {
        255
    } else {
        scaled as u8
    }
}

} // verus!
