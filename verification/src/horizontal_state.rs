//! The phase of the horizontal run: at rest, or under way in one of the two
//! directions for a planned time, after which the run has slowed to a stop.
//!
//! The state keeps no speeds or positions.  Whoever integrates the motion
//! asks it how long the run has lasted, reports every crossing of a bound,
//! and lets it decide at the end of each tick whether the run goes on.  One
//! tick of a run goes like this:
//!
//! 1. [`HorizontalState::travel_time`] gives the time for which the
//!    displacement is due, never more than the plan; at rest there is none
//!    and the tick is over.
//! 2. The caller moves the ball step by step in the direction that
//!    [`HorizontalState::direction`] shows, and calls
//!    [`HorizontalState::bounce`] whenever a step has left the bounds.
//! 3. [`HorizontalState::settle`] ends the run if the plan has run out.  If
//!    it has not, the caller plans the rest of the run from the speed that
//!    is left and hands the plan to [`HorizontalState::resume`].
//!
//! [`HorizontalState::travel_time_at`] and [`HorizontalState::settle_at`]
//! are the same decisions for a time that the caller names, and
//! [`Travel`] states them over plain numbers.

use crate::now::Now;
use vstd::prelude::*;

verus! {

/// What a [`HorizontalState`] stands for: the direction of travel, if any,
/// and the planned length of the current run in nanoseconds.
pub struct Travel {
    /// `None` at rest, `Some(-1)` going left, `Some(1)` going right.
    pub direction: Option<int>,
    /// The time after which the run started last has slowed to a stop.
    pub duration: nat,
}

impl Travel {
    /// Whether a run is under way.
    pub open spec fn is_moving(self) -> bool {
        self.direction.is_some()
    }

    /// The state after stopping: at rest, the plan kept.
    pub open spec fn stopped(self) -> Travel {
        Travel { direction: None, duration: self.duration }
    }

    /// The state after starting a run in `direction` planned to last
    /// `duration`, whatever went before.
    pub open spec fn started(direction: int, duration: nat) -> Travel {
        Travel { direction: Some(direction), duration }
    }

    /// The state after going on with a new plan: a run under way keeps its
    /// direction and is planned anew, a state at rest stays as it is.
    pub open spec fn resumed(self, duration: nat) -> Travel {
        match self.direction {
            Some(d) => Travel::started(d, duration),
            None => self,
        }
    }

    /// The state after crossing a bound: the direction is reversed.
    pub open spec fn bounced(self) -> Travel {
        match self.direction {
            Some(d) => Travel { direction: Some(-d), duration: self.duration },
            None => self,
        }
    }

    /// The time for which the displacement of this tick is computed when
    /// `elapsed` has passed since the run started: the elapsed time, but
    /// never more than the plan.  A state at rest has none.
    pub open spec fn travel_time(self, elapsed: nat) -> Option<nat> {
        if self.is_moving() {
            Some(if elapsed <= self.duration { elapsed } else { self.duration })
        } else {
            None
        }
    }

    /// The state at the end of a tick at which `elapsed` has passed since the
    /// run started: the run goes on while the plan has not run out, and is
    /// stopped otherwise.
    pub open spec fn settled(self, elapsed: nat) -> Travel {
        if self.is_moving() && elapsed < self.duration {
            self
        } else {
            self.stopped()
        }
    }
}

/// The phase of the horizontal run, with the stopwatch that times it.
#[derive(Debug)]
pub struct HorizontalState {
    play: Option<i8>,
    start: Now,
    duration: u128,
}

impl View for HorizontalState {
    type V = Travel;

    closed spec fn view(&self) -> Travel {
        Travel {
            direction: match self.play {
                Some(d) => Some(d as int),
                None => None,
            },
            duration: self.duration as nat,
        }
    }
}

impl Default for HorizontalState {
    /// At rest, with an empty plan.
    fn default() -> (state: Self)
        ensures
            state@ == (Travel { direction: None, duration: 0 }),
    {
        HorizontalState { play: None, start: Now::default(), duration: 0 }
    }
}

impl HorizontalState {
    /// A direction under way is one step left or one step right.
    #[verifier::type_invariant]
    spec fn well_formed(self) -> bool {
        self.play matches Some(d) ==> d == 1 || d == -1
    }

    /// Whether a run is under way.
    pub fn is_play(&self) -> (moving: bool)
        ensures
            moving == self@.is_moving(),
    {
        self.play.is_some()
    }

    /// The direction of travel: `None` at rest, else `-1` for left or `1`
    /// for right.
    pub fn direction(&self) -> (direction: Option<i8>)
        ensures
            direction matches Some(d) ==> d == 1 || d == -1,
            self@.direction == match direction {
                Some(d) => Some(d as int),
                None => None,
            },
    {
        proof {
            use_type_invariant(self);
        }
        self.play
    }

    /// The planned length of the current run, in nanoseconds.
    pub fn duration(&self) -> (duration: u128)
        ensures
            duration == self@.duration,
    {
        self.duration
    }

    /// Ends the run.  Stopping a state at rest changes nothing.
    pub fn stop(&mut self)
        ensures
            final(self)@ == old(self)@.stopped(),
    {
        proof {
            use_type_invariant(&*self);
        }
        self.play = None;
    }

    /// Starts a run to the left that is planned to last `duration`
    /// nanoseconds, and starts timing it.
    pub fn play_left(&mut self, duration: u128)
        ensures
            final(self)@ == Travel::started(-1, duration as nat),
    {
        self.play(-1, duration);
    }

    /// Starts a run to the right that is planned to last `duration`
    /// nanoseconds, and starts timing it.
    pub fn play_right(&mut self, duration: u128)
        ensures
            final(self)@ == Travel::started(1, duration as nat),
    {
        self.play(1, duration);
    }

    fn play(&mut self, direction: i8, duration: u128)
        requires
            direction == 1 || direction == -1,
        ensures
            final(self)@ == Travel::started(direction as int, duration as nat),
    {
        proof {
            use_type_invariant(&*self);
        }
        self.start = Now::default();
        self.play = Some(direction);
        self.duration = duration;
    }

    /// Goes on with the run under way: keeps its direction, plans it to last
    /// `duration` nanoseconds from now, and starts timing afresh.  At rest
    /// nothing happens.
    pub fn resume(&mut self, duration: u128)
        ensures
            final(self)@ == old(self)@.resumed(duration as nat),
    {
        proof {
            use_type_invariant(&*self);
        }
        match self.play {
            Some(direction) => {
                self.play(direction, duration);
            },
            None => {},
        }
    }

    /// Reverses the direction of a run under way, as on crossing a bound.
    /// At rest nothing happens.
    pub fn bounce(&mut self)
        ensures
            final(self)@ == old(self)@.bounced(),
    {
        proof {
            use_type_invariant(&*self);
        }
        match self.play {
            Some(direction) => {
                self.play = Some(-direction);
            },
            None => {},
        }
    }

    /// The time, in nanoseconds, for which this tick's displacement is
    /// computed when `elapsed` nanoseconds have passed since the run started.
    pub fn travel_time_at(&self, elapsed: u128) -> (time: Option<u128>)
        ensures
            self@.travel_time(elapsed as nat) == match time {
                Some(t) => Some(t as nat),
                None => None,
            },
    {
        if self.play.is_some() {
            if elapsed <= self.duration {
                Some(elapsed)
            } else {
                Some(self.duration)
            }
        } else {
            None
        }
    }

    /// The time, in nanoseconds, for which this tick's displacement is
    /// computed, by the stopwatch: whatever the stopwatch shows, a run under
    /// way gets a time within its plan, and a state at rest gets none.
    pub fn travel_time(&self) -> (time: Option<u128>)
        ensures
            time.is_some() == self@.is_moving(),
            time matches Some(t) ==> t <= self@.duration,
    {
        let elapsed = self.start.elapsed_nanos();
        self.travel_time_at(elapsed)
    }

    /// Ends a tick at which `elapsed` nanoseconds have passed since the run
    /// started: the run goes on untouched if its plan has not run out, and is
    /// stopped otherwise.  Returns whether it goes on.
    pub fn settle_at(&mut self, elapsed: u128) -> (moving: bool)
        ensures
            final(self)@ == old(self)@.settled(elapsed as nat),
            moving == final(self)@.is_moving(),
    {
        if self.play.is_some() && elapsed < self.duration {
            true
        } else {
            self.stop();
            false
        }
    }

    /// Ends a tick by the stopwatch.  Whatever the stopwatch shows, the run
    /// either goes on untouched or has been stopped, and a plan of length
    /// zero always ends it.  Returns whether the run goes on.
    pub fn settle(&mut self) -> (moving: bool)
        ensures
            final(self)@ == old(self)@ || final(self)@ == old(self)@.stopped(),
            moving == final(self)@.is_moving(),
            moving ==> old(self)@.is_moving() && old(self)@.duration > 0,
    {
        let elapsed = self.start.elapsed_nanos();
        self.settle_at(elapsed)
    }
}

/// A tick that comes when the plan has run out always ends the run.
pub proof fn lemma_overdue_tick_stops(travel: Travel, elapsed: nat)
    requires
        elapsed >= travel.duration,
    ensures
        !travel.settled(elapsed).is_moving(),
{
}

/// A tick that comes before the plan has run out leaves a run under way as
/// it is: still moving, in the same direction, with the same plan.
pub proof fn lemma_early_tick_keeps_running(travel: Travel, elapsed: nat)
    requires
        travel.is_moving(),
        elapsed < travel.duration,
    ensures
        travel.settled(elapsed) == travel,
        travel.travel_time(elapsed) == Some(elapsed),
{
}

/// Stopping twice is the same as stopping once, and leaves the state at
/// rest.
pub proof fn lemma_stop_is_idempotent(travel: Travel)
    ensures
        !travel.stopped().is_moving(),
        travel.stopped().stopped() == travel.stopped(),
{
}

/// Crossing a bound reverses the direction of travel and nothing else, so
/// the displacement of the steps that follow has the opposite sign; crossing
/// twice restores the direction.
pub proof fn lemma_bounce_reverses(travel: Travel, d: int)
    requires
        travel.direction == Some(d),
    ensures
        travel.bounced().direction == Some(-d),
        travel.bounced().duration == travel.duration,
        travel.bounced().bounced() == travel,
{
}

/// The displacement of a tick is never computed for more than the planned
/// time, however late the tick comes.
pub proof fn lemma_travel_time_is_clamped(travel: Travel, elapsed: nat)
    requires
        travel.is_moving(),
    ensures
        travel.travel_time(elapsed) matches Some(t) && t <= elapsed && t <= travel.duration && (t
            == elapsed || t == travel.duration),
{
}

} // verus!
