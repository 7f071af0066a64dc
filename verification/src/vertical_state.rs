//! The phase of the vertical flight: at rest on the floor, or in the air on
//! the way down or on the way up after a bounce.
//!
//! The state keeps no speeds or heights.  Whoever integrates the motion
//! reports every touch of the floor and, at the end of each tick, whether
//! the flight has become too small to go on.  One tick of a flight goes like
//! this:
//!
//! 1. While [`VerticalState::is_play`] holds, [`VerticalState::elapsed`]
//!    gives the time since the tick before.
//! 2. The caller moves the ball by the displacement of that time, signed by
//!    [`VerticalState::direction`], and calls [`VerticalState::bounce`] when
//!    the ball has reached the floor.
//! 3. [`VerticalState::settle`] starts timing the next tick, and ends the
//!    flight when both the displacement and the height have become
//!    negligible.
//!
//! [`Flight`] states these decisions over plain values.

use crate::now::Now;
use std::time::Duration;
use vstd::prelude::*;

verus! {

/// What a [`VerticalState`] stands for.
pub struct Flight {
    /// Whether the ball is in the air.
    pub playing: bool,
    /// `-1` on the way down, `1` on the way up.
    pub direction: int,
}

impl Flight {
    /// Whether the ball is on the way down.
    pub open spec fn is_dropping(self) -> bool {
        self.direction < 0
    }

    /// The state after letting the ball go: in the air, on the way down.
    pub open spec fn dropped() -> Flight {
        Flight { playing: true, direction: -1 }
    }

    /// The state after stopping: at rest, the direction kept.
    pub open spec fn stopped(self) -> Flight {
        Flight { playing: false, direction: self.direction }
    }

    /// The state after touching the floor: the direction is reversed.
    pub open spec fn bounced(self) -> Flight {
        Flight { playing: self.playing, direction: -self.direction }
    }

    /// The state at the end of a tick.  The flight ends when both the
    /// displacement of the tick and the height above the floor are within
    /// the rest threshold, and goes on otherwise.
    pub open spec fn settled(self, displacement_at_rest: bool, height_at_rest: bool) -> Flight {
        if displacement_at_rest && height_at_rest {
            self.stopped()
        } else {
            self
        }
    }
}

/// The phase of the vertical flight, with the stopwatch that times its
/// ticks.
#[derive(Debug)]
pub struct VerticalState {
    play: bool,
    start: Now,
    direction: i8,
}

impl View for VerticalState {
    type V = Flight;

    closed spec fn view(&self) -> Flight {
        Flight { playing: self.play, direction: self.direction as int }
    }
}

impl Default for VerticalState {
    /// At rest and not dropping.
    fn default() -> (state: Self)
        ensures
            state@ == (Flight { playing: false, direction: 1 }),
    {
        VerticalState { play: false, start: Now::default(), direction: 1 }
    }
}

impl VerticalState {
    /// The direction is one step down or one step up.
    #[verifier::type_invariant]
    spec fn well_formed(self) -> bool {
        self.direction == 1 || self.direction == -1
    }

    /// Lets the ball go: it is in the air, on the way down, and the
    /// stopwatch starts.
    pub fn fall(&mut self)
        ensures
            final(self)@ == Flight::dropped(),
    {
        proof {
            use_type_invariant(&*self);
        }
        self.play = true;
        self.direction = -1;
        self.start = Now::default();
    }

    /// Whether the ball is on the way down.
    pub fn is_drop(&self) -> (dropping: bool)
        ensures
            dropping == self@.is_dropping(),
    {
        self.direction < 0
    }

    /// The direction of flight: `-1` on the way down, `1` on the way up.
    pub fn direction(&self) -> (direction: i8)
        ensures
            direction == self@.direction,
            direction == 1 || direction == -1,
    {
        proof {
            use_type_invariant(self);
        }
        self.direction
    }

    /// Ends the flight.  Stopping a state at rest changes nothing.
    pub fn stop(&mut self)
        ensures
            final(self)@ == old(self)@.stopped(),
    {
        proof {
            use_type_invariant(&*self);
        }
        self.play = false;
    }

    /// Whether the ball is in the air.
    pub fn is_play(&self) -> (playing: bool)
        ensures
            playing == self@.playing,
    {
        self.play
    }

    /// Reverses the direction of flight, as on touching the floor.
    pub fn bounce(&mut self)
        ensures
            final(self)@ == old(self)@.bounced(),
    {
        proof {
            use_type_invariant(&*self);
        }
        self.direction = -self.direction;
    }

    /// The time since the last tick, by the stopwatch.
    pub fn elapsed(&self) -> (span: Duration) {
        self.start.elapsed()
    }

    /// Ends a tick: starts timing the next one, and ends the flight when
    /// both the displacement of the tick and the height above the floor were
    /// found within the rest threshold.  Returns whether the flight goes on.
    pub fn settle(&mut self, displacement_at_rest: bool, height_at_rest: bool) -> (playing: bool)
        ensures
            final(self)@ == old(self)@.settled(displacement_at_rest, height_at_rest),
            playing == final(self)@.playing,
    {
        proof {
            use_type_invariant(&*self);
        }
        self.start = Now::default();
        if displacement_at_rest && height_at_rest {
            self.stop();
        }
        self.play
    }
}

/// Letting the ball go puts it in the air on the way down, whatever the
/// state was.
pub proof fn lemma_drop_starts_falling()
    ensures
        Flight::dropped().playing,
        Flight::dropped().is_dropping(),
{
}

/// Stopping twice is the same as stopping once, and leaves the state at
/// rest.
pub proof fn lemma_stop_is_idempotent(flight: Flight)
    ensures
        !flight.stopped().playing,
        flight.stopped().stopped() == flight.stopped(),
{
}

/// Touching the floor turns a fall into a rise and a rise into a fall, and
/// does not end the flight.
pub proof fn lemma_bounce_reverses(flight: Flight)
    requires
        flight.direction == 1 || flight.direction == -1,
    ensures
        flight.bounced().is_dropping() == !flight.is_dropping(),
        flight.bounced().playing == flight.playing,
        flight.bounced().bounced() == flight,
{
}

/// A tick ends the flight exactly when the flight was at rest already or
/// both measurements are within the threshold.
pub proof fn lemma_settle_needs_both(flight: Flight, displacement_at_rest: bool, height_at_rest: bool)
    ensures
        flight.settled(displacement_at_rest, height_at_rest).playing == (flight.playing && !(
        displacement_at_rest && height_at_rest)),
        flight.settled(displacement_at_rest, height_at_rest).direction == flight.direction,
{
}

} // verus!
