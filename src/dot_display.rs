//! A display front-end that reports every failure of the controller, and
//! refuses requests that make no sense in its current state.
use crate::panel::{intensity_for, DataError, Panel, MAX_BRIGHTNESS};
use vstd::prelude::*;

verus! {

/// Drives a matrix panel and tracks whether it is powered. A failed call
/// leaves the recorded power state as it was.
pub struct DotDisplay<P> {
    display: P,
    display_is_on: bool,
}

impl<P: Panel> DotDisplay<P> {
    /// Whether the panel is powered, as far as this display knows.
    pub closed spec fn spec_is_on(&self) -> bool {
        self.display_is_on
    }

    /// Takes over a panel, clears it and powers it off.
    pub fn from(display: P) -> (r: Result<DotDisplay<P>, DataError>)
        ensures
            r matches Ok(d) ==> !d.spec_is_on(),
    {
        let mut controller = DotDisplay { display, display_is_on: true };
        controller.reset_display()?;
        controller.turn_off_display()?;
        Ok(controller)
    }

    /// Shows a frame, powering the panel on first if it is off.
    pub fn write_display(&mut self, input: &[u8; 8]) -> (r: Result<(), DataError>)
        ensures
            r is Ok ==> final(self).spec_is_on(),
            old(self).spec_is_on() ==> final(self).spec_is_on(),
    {
        if !self.display_is_on {
            self.turn_on_display()?;
        }
        self.display.write_raw(input)?;
        Ok(())
    }

    /// Powers the panel off; refused with `Pin` when it is off already.
    pub fn turn_off_display(&mut self) -> (r: Result<(), DataError>)
        ensures
            !old(self).spec_is_on() ==> r == Err::<(), DataError>(DataError::Pin) && *final(self)
                == *old(self),
            r is Ok ==> !final(self).spec_is_on(),
            r is Err ==> final(self).spec_is_on() == old(self).spec_is_on(),
    {
        if !self.display_is_on {
            return Err(DataError::Pin);
        }
        self.display.power_off()?;
        self.display_is_on = false;
        Ok(())
    }

    /// Powers the panel on; refused with `Pin` when it is on already.
    pub fn turn_on_display(&mut self) -> (r: Result<(), DataError>)
        ensures
            old(self).spec_is_on() ==> r == Err::<(), DataError>(DataError::Pin) && *final(self)
                == *old(self),
            r is Ok ==> final(self).spec_is_on(),
            r is Err ==> final(self).spec_is_on() == old(self).spec_is_on(),
    {
        if self.display_is_on {
            return Err(DataError::Pin);
        }
        self.display.power_on()?;
        self.display_is_on = true;
        Ok(())
    }

    /// Powers the panel off if it is on, and on if it is off.
    pub fn toggle_display(&mut self) -> (r: Result<(), DataError>)
        ensures
            r is Ok ==> final(self).spec_is_on() == !old(self).spec_is_on(),
            r is Err ==> final(self).spec_is_on() == old(self).spec_is_on(),
    {
        if self.display_is_on {
            self.turn_off_display()?;
        } else {
            self.turn_on_display()?;
        }
        Ok(())
    }

    /// Blanks the panel.
    pub fn reset_display(&mut self) -> (r: Result<(), DataError>)
        ensures
            final(self).spec_is_on() == old(self).spec_is_on(),
    {
        self.display.clear_display()?;
        Ok(())
    }

    /// Sets the brightness in percent; refused with `Pin` above 100 %.
    pub fn set_brightness(&mut self, brightness: u8) -> (r: Result<(), DataError>)
        ensures
            brightness > MAX_BRIGHTNESS ==> r == Err::<(), DataError>(DataError::Pin)
                && *final(self) == *old(self),
            final(self).spec_is_on() == old(self).spec_is_on(),
    {
        if brightness > MAX_BRIGHTNESS {
            return Err(DataError::Pin);
        }
        self.display.set_intensity(intensity_for(brightness))?;
        Ok(())
    }

    /// Whether the panel is powered, as far as this display knows.
    #[verifier::when_used_as_spec(spec_is_on)]
    pub fn is_on(&self) -> (r: bool)
        ensures
            r == self.spec_is_on(),
    {
        self.display_is_on
    }
}

} // verus!
