//! Thresholds that turn an analog input into press and release decisions.
//!
//! Analog levels are fixed-point fractions of [`FULL_SCALE`], which stands
//! for a fully actuated input: `FULL_SCALE / 2` is one half.

use vstd::prelude::*;

verus! {

/// The level of a fully actuated input.
pub const FULL_SCALE: u32 = 1_000_000;

/// Returned when a threshold could not be set to the level asked for; holds
/// the level it was set to instead.
#[derive(Clone, Copy, Debug, PartialEq, Eq, Structural)]
pub struct ThresholdError(pub u32);

/// The level at or above which a button counts as pressed, and the level
/// below which it counts as released.
///
/// Both lie in `0..=FULL_SCALE`, and the pressed level is never below the
/// released one. Both default to one half.
#[derive(Clone, Copy, Debug)]
pub struct ButtonThresholds {
    pressed: u32,
    released: u32,
}

impl ButtonThresholds {
    #[verifier::type_invariant]
    spec fn wf(self) -> bool {
        self.released <= self.pressed <= FULL_SCALE
    }

    pub closed spec fn spec_pressed(&self) -> u32 {
        self.pressed
    }

    pub closed spec fn spec_released(&self) -> u32 {
        self.released
    }

    /// The level at or above which the button counts as pressed.
    pub fn pressed(&self) -> (r: u32)
        ensures
            r == self.spec_pressed(),
            self.spec_released() <= r <= FULL_SCALE,
    {
        proof {
            use_type_invariant(self);
        }
        self.pressed
    }

    /// The level below which the button counts as released.
    pub fn released(&self) -> (r: u32)
        ensures
            r == self.spec_released(),
            r <= self.spec_pressed(),
    {
        proof {
            use_type_invariant(self);
        }
        self.released
    }

    /// Sets the pressed level to `value`.
    ///
    /// A `value` below the released level is raised to it, and the level
    /// used is reported as a [`ThresholdError`]. The released level is kept.
    pub fn set_pressed(&mut self, value: u32) -> (r: Result<(), ThresholdError>)
        requires
            value <= FULL_SCALE,
        ensures
            final(self).spec_released() == old(self).spec_released(),
            value >= old(self).spec_released() ==> r == Ok::<(), ThresholdError>(()) && final(self).spec_pressed() == value,
            value < old(self).spec_released() ==> r == Err::<(), ThresholdError>(ThresholdError(old(self).spec_released()))
                && final(self).spec_pressed() == old(self).spec_released(),
    {
        proof {
            use_type_invariant(&*self);
        }
        if value >= self.released {
            self.pressed = value;
            Ok(())
        } else {
            self.pressed = self.released;
            Err(ThresholdError(self.released))
        }
    }

    /// Sets the released level to `value`.
    ///
    /// A `value` above the pressed level is lowered to it, and the level used
    /// is reported as a [`ThresholdError`]; this mirrors [`Self::set_pressed`].
    /// The pressed level is kept in either case.
    pub fn set_released(&mut self, value: u32) -> (r: Result<(), ThresholdError>)
        requires
            value <= FULL_SCALE,
        ensures
            final(self).spec_pressed() == old(self).spec_pressed(),
            value <= old(self).spec_pressed() ==> r == Ok::<(), ThresholdError>(()) && final(self).spec_released() == value,
            value > old(self).spec_pressed() ==> r == Err::<(), ThresholdError>(ThresholdError(old(self).spec_pressed()))
                && final(self).spec_released() == old(self).spec_pressed(),
    {
        proof {
            use_type_invariant(&*self);
        }
        if value <= self.pressed {
            self.released = value;
            Ok(())
        } else {
            self.released = self.pressed;
            Err(ThresholdError(self.pressed))
        }
    }
}

impl Default for ButtonThresholds {
    fn default() -> (r: ButtonThresholds)
        ensures
            r.spec_pressed() == FULL_SCALE / 2,
            r.spec_released() == FULL_SCALE / 2,
    {
        ButtonThresholds { pressed: FULL_SCALE / 2, released: FULL_SCALE / 2 }
    }
}

} // verus!
