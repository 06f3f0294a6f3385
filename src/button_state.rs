//! The timed pressed/released state of one virtual button.

use vstd::prelude::*;
use crate::time::{Duration, Instant};

verus! {

/// Timing information for a [`VirtualButtonState`].
#[derive(Clone, Copy, Debug, PartialEq, Eq, Structural, PartialOrd)]
pub struct Timing {
    /// The instant at which the button entered its current state, as recorded
    /// by the first tick after the change; `None` until that tick.
    pub instant_started: Option<Instant>,
    /// How long the button has been in its current state; zero until the
    /// second tick after the change.
    pub current_duration: Duration,
    /// How long the button stayed in the state it held before the last change.
    pub previous_duration: Duration,
}

impl Timing {
    /// Untimed, with both durations zero.
    pub open spec fn spec_default() -> Timing {
        Timing {
            instant_started: None,
            current_duration: Duration { nanos: 0 },
            previous_duration: Duration { nanos: 0 },
        }
    }

    /// The timing of a state just entered from one whose current duration was `carried`.
    pub open spec fn spec_fresh(carried: Duration) -> Timing {
        Timing {
            instant_started: None,
            current_duration: Duration { nanos: 0 },
            previous_duration: carried,
        }
    }

    /// The timing after one tick at `now`.
    pub open spec fn spec_tick(self, now: Instant) -> Timing {
        match self.instant_started {
            Some(start) => Timing { current_duration: now.spec_duration_since(start), ..self },
            None => Timing { instant_started: Some(now), current_duration: Duration { nanos: 0 }, ..self },
        }
    }

    pub fn tick(&self, now: Instant) -> (r: Timing)
        ensures
            r == self.spec_tick(now),
    {
        match self.instant_started {
            Some(start) => Timing {
                instant_started: self.instant_started,
                current_duration: now.saturating_duration_since(start),
                previous_duration: self.previous_duration,
            },
            None => Timing {
                instant_started: Some(now),
                current_duration: Duration::zero(),
                previous_duration: self.previous_duration,
            },
        }
    }
}

impl Default for Timing {
    fn default() -> (r: Timing)
        ensures
            r == Timing::spec_default(),
    {
        Timing {
            instant_started: None,
            current_duration: Duration::zero(),
            previous_duration: Duration::zero(),
        }
    }
}

/// The current state of one virtual button.
#[derive(Clone, Copy, Debug, PartialEq, Eq, Structural, PartialOrd)]
pub enum VirtualButtonState {
    /// The button is pressed.
    Pressed(Timing),
    /// The button is released.
    Released(Timing),
}

impl VirtualButtonState {
    pub open spec fn timing(self) -> Timing {
        match self {
            VirtualButtonState::Pressed(t) => t,
            VirtualButtonState::Released(t) => t,
        }
    }

    pub open spec fn is_pressed(self) -> bool {
        self is Pressed
    }

    pub open spec fn is_just_pressed(self) -> bool {
        self is Pressed && self.timing().instant_started is None
    }

    pub open spec fn is_just_released(self) -> bool {
        self is Released && self.timing().instant_started is None
    }

    /// Released and untimed.
    pub open spec fn spec_default() -> VirtualButtonState {
        VirtualButtonState::Released(Timing::spec_default())
    }

    /// The state after a press: a released button becomes pressed, carrying its
    /// current duration over as the previous one; a pressed button stays as it is.
    pub open spec fn after_press(self) -> VirtualButtonState {
        match self {
            VirtualButtonState::Released(t) => VirtualButtonState::Pressed(Timing::spec_fresh(t.current_duration)),
            VirtualButtonState::Pressed(_) => self,
        }
    }

    /// The state after a release; the mirror image of [`Self::after_press`].
    pub open spec fn after_release(self) -> VirtualButtonState {
        match self {
            VirtualButtonState::Pressed(t) => VirtualButtonState::Released(Timing::spec_fresh(t.current_duration)),
            VirtualButtonState::Released(_) => self,
        }
    }

    /// The state after one tick at `now`: same variant, timing advanced.
    pub open spec fn after_tick(self, now: Instant) -> VirtualButtonState {
        match self {
            VirtualButtonState::Pressed(t) => VirtualButtonState::Pressed(t.spec_tick(now)),
            VirtualButtonState::Released(t) => VirtualButtonState::Released(t.spec_tick(now)),
        }
    }

    /// Is the button currently pressed?
    pub fn pressed(&self) -> (r: bool)
        ensures
            r == self.is_pressed(),
    {
        match self {
            VirtualButtonState::Pressed(_) => true,
            VirtualButtonState::Released(_) => false,
        }
    }

    /// Is the button currently released?
    pub fn released(&self) -> (r: bool)
        ensures
            r == !self.is_pressed(),
    {
        match self {
            VirtualButtonState::Pressed(_) => false,
            VirtualButtonState::Released(_) => true,
        }
    }

    /// Was the button pressed since the last tick?
    pub fn just_pressed(&self) -> (r: bool)
        ensures
            r == self.is_just_pressed(),
    {
        match self {
            VirtualButtonState::Pressed(timing) => timing.instant_started.is_none(),
            VirtualButtonState::Released(_) => false,
        }
    }

    /// Was the button released since the last tick?
    pub fn just_released(&self) -> (r: bool)
        ensures
            r == self.is_just_released(),
    {
        match self {
            VirtualButtonState::Pressed(_) => false,
            VirtualButtonState::Released(timing) => timing.instant_started.is_none(),
        }
    }

    /// The instant at which the button entered its current state, once a tick has recorded it.
    pub fn instant_started(&self) -> (r: Option<Instant>)
        ensures
            r == self.timing().instant_started,
    {
        match self {
            VirtualButtonState::Pressed(timing) => timing.instant_started,
            VirtualButtonState::Released(timing) => timing.instant_started,
        }
    }

    /// How long the button has been in its current state.
    pub fn current_duration(&self) -> (r: Duration)
        ensures
            r == self.timing().current_duration,
    {
        match self {
            VirtualButtonState::Pressed(timing) => timing.current_duration,
            VirtualButtonState::Released(timing) => timing.current_duration,
        }
    }

    /// How long the button stayed in its state before the last change.
    pub fn previous_duration(&self) -> (r: Duration)
        ensures
            r == self.timing().previous_duration,
    {
        match self {
            VirtualButtonState::Pressed(timing) => timing.previous_duration,
            VirtualButtonState::Released(timing) => timing.previous_duration,
        }
    }

    /// This state after a press.
    pub fn press(&self) -> (r: VirtualButtonState)
        ensures
            r == self.after_press(),
    {
        match self {
            VirtualButtonState::Released(timing) => VirtualButtonState::Pressed(Timing {
                instant_started: None,
                current_duration: Duration::zero(),
                previous_duration: timing.current_duration,
            }),
            VirtualButtonState::Pressed(_) => *self,
        }
    }

    /// This state after a release.
    pub fn release(&self) -> (r: VirtualButtonState)
        ensures
            r == self.after_release(),
    {
        match self {
            VirtualButtonState::Pressed(timing) => VirtualButtonState::Released(Timing {
                instant_started: None,
                current_duration: Duration::zero(),
                previous_duration: timing.current_duration,
            }),
            VirtualButtonState::Released(_) => *self,
        }
    }

    /// This state after one tick at `now`.
    pub fn tick(&self, now: Instant) -> (r: VirtualButtonState)
        ensures
            r == self.after_tick(now),
    {
        match self {
            VirtualButtonState::Pressed(timing) => VirtualButtonState::Pressed(timing.tick(now)),
            VirtualButtonState::Released(timing) => VirtualButtonState::Released(timing.tick(now)),
        }
    }
}

impl Default for VirtualButtonState {
    fn default() -> (r: VirtualButtonState)
        ensures
            r == VirtualButtonState::spec_default(),
    {
        VirtualButtonState::Released(Timing::default())
    }
}

/// A fresh button is released, was just released, has no recorded start and
/// zero durations.
pub proof fn lemma_default_is_released_and_untimed()
    ensures
        !VirtualButtonState::spec_default().is_pressed(),
        VirtualButtonState::spec_default().is_just_released(),
        VirtualButtonState::spec_default().timing().instant_started is None,
        VirtualButtonState::spec_default().timing().current_duration.nanos == 0,
        VirtualButtonState::spec_default().timing().previous_duration.nanos == 0,
{
}

/// Pressing a released button makes it pressed and just pressed, with no
/// recorded start, and carries its current duration over as the previous one.
pub proof fn lemma_press_released(s: VirtualButtonState)
    requires
        !s.is_pressed(),
    ensures
        s.after_press().is_pressed(),
        s.after_press().is_just_pressed(),
        s.after_press().timing().instant_started is None,
        s.after_press().timing().current_duration.nanos == 0,
        s.after_press().timing().previous_duration == s.timing().current_duration,
{
}

/// Releasing a pressed button makes it released and just released, with no
/// recorded start and a zero current duration; the duration it was pressed
/// for becomes the previous one.
pub proof fn lemma_release_pressed(s: VirtualButtonState)
    requires
        s.is_pressed(),
    ensures
        !s.after_release().is_pressed(),
        s.after_release().is_just_released(),
        s.after_release().timing().instant_started is None,
        s.after_release().timing().current_duration.nanos == 0,
        s.after_release().timing().previous_duration == s.timing().current_duration,
{
}

/// Pressing a pressed button, or releasing a released one, changes nothing.
pub proof fn lemma_press_release_idempotent(s: VirtualButtonState)
    ensures
        s.is_pressed() ==> s.after_press() == s,
        !s.is_pressed() ==> s.after_release() == s,
{
}

/// The first tick after a change records its instant as the start, with a
/// zero current duration, and ends "just pressed" and "just released"; the
/// variant and the previous duration stay.
pub proof fn lemma_first_tick(s: VirtualButtonState, t0: Instant)
    requires
        s.timing().instant_started is None,
    ensures
        s.after_tick(t0).timing().instant_started == Some(t0),
        s.after_tick(t0).timing().current_duration.nanos == 0,
        s.after_tick(t0).timing().previous_duration == s.timing().previous_duration,
        s.after_tick(t0).is_pressed() == s.is_pressed(),
        !s.after_tick(t0).is_just_pressed(),
        !s.after_tick(t0).is_just_released(),
{
}

/// A later tick on a button whose start is recorded at `t0` measures the span
/// from `t0`, and keeps the start, the variant and the previous duration.
pub proof fn lemma_later_tick(s: VirtualButtonState, t0: Instant, t1: Instant)
    requires
        s.timing().instant_started == Some(t0),
        t0.nanos < t1.nanos,
    ensures
        s.after_tick(t1).timing().current_duration.nanos == t1.nanos - t0.nanos,
        s.after_tick(t1).timing().instant_started == Some(t0),
        s.after_tick(t1).timing().previous_duration == s.timing().previous_duration,
        s.after_tick(t1).is_pressed() == s.is_pressed(),
{
}

/// A tick keeps the variant and the previous duration, and leaves the button
/// neither just pressed nor just released.
pub proof fn lemma_tick_keeps_variant(s: VirtualButtonState, now: Instant)
    ensures
        s.after_tick(now).is_pressed() == s.is_pressed(),
        s.after_tick(now).timing().previous_duration == s.timing().previous_duration,
        s.after_tick(now).timing().instant_started is Some,
        !s.after_tick(now).is_just_pressed(),
        !s.after_tick(now).is_just_released(),
{
}

/// A released button whose previous duration is zero stays so under any
/// number of ticks and releases: only a press changes that.
pub proof fn lemma_unpressed_stays_released(s: VirtualButtonState, now: Instant)
    requires
        !s.is_pressed(),
        s.timing().previous_duration.nanos == 0,
    ensures
        s.after_release() == s,
        !s.after_tick(now).is_pressed(),
        s.after_tick(now).timing().previous_duration.nanos == 0,
{
}

} // verus!
