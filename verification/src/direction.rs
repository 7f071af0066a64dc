//! The axis and sense of a commanded motion.

use vstd::prelude::*;

verus! {

/// Which way the ball has been told to go.  The number carried by a moving
/// variant is the sense along its axis: `-1` for left or down, `1` for right
/// or up.
#[derive(Clone, Copy, Debug, PartialEq, Eq, Structural)]
pub enum GLBBDirection {
    Stop,
    Vertical(i8),
    Horizontal(i8),
}

impl GLBBDirection {
    /// What `set_direction(new)` makes of a direction: the axis stays, the
    /// sense becomes `new`, and `Stop` stays `Stop`.
    pub open spec fn with_sense(self, new: i8) -> Self {
        match self {
            GLBBDirection::Stop => GLBBDirection::Stop,
            GLBBDirection::Vertical(_) => GLBBDirection::Vertical(new),
            GLBBDirection::Horizontal(_) => GLBBDirection::Horizontal(new),
        }
    }

    /// Replaces the sense of a moving direction and leaves `Stop` alone.
    pub fn set_direction(&mut self, new: i8)
        ensures
            *final(self) == old(self).with_sense(new),
    {
        match *self {
            GLBBDirection::Vertical(_) => {
                *self = GLBBDirection::Vertical(new);
            },
            GLBBDirection::Horizontal(_) => {
                *self = GLBBDirection::Horizontal(new);
            },
            GLBBDirection::Stop => {},
        }
    }

    /// Returns `true` if the direction is [`GLBBDirection::Stop`].
    #[must_use]
    pub fn is_stop(&self) -> (stopped: bool)
        ensures
            stopped == (*self == GLBBDirection::Stop),
    {
        match self {
            GLBBDirection::Stop => true,
            _ => false,
        }
    }

    /// No motion.
    pub fn stop() -> (direction: Self)
        ensures
            direction == GLBBDirection::Stop,
    {
        GLBBDirection::Stop
    }

    /// Horizontal motion towards smaller coordinates.
    pub fn left() -> (direction: Self)
        ensures
            direction == GLBBDirection::Horizontal(-1i8),
    {
        GLBBDirection::Horizontal(-1)
    }

    /// Horizontal motion towards larger coordinates.
    pub fn right() -> (direction: Self)
        ensures
            direction == GLBBDirection::Horizontal(1),
    {
        GLBBDirection::Horizontal(1)
    }

    /// Vertical motion towards larger coordinates.
    pub fn up() -> (direction: Self)
        ensures
            direction == GLBBDirection::Vertical(1),
    {
        GLBBDirection::Vertical(1)
    }

    /// Vertical motion towards smaller coordinates.
    pub fn down() -> (direction: Self)
        ensures
            direction == GLBBDirection::Vertical(-1i8),
    {
        GLBBDirection::Vertical(-1)
    }
}

impl Default for GLBBDirection {
    fn default() -> (direction: Self)
        ensures
            direction == GLBBDirection::Stop,
    {
        GLBBDirection::Stop
    }
}

/// Setting the sense twice is the same as setting the later one once.
pub proof fn lemma_set_direction_overwrites(direction: GLBBDirection, first: i8, second: i8)
    ensures
        direction.with_sense(first).with_sense(second) == direction.with_sense(second),
{
}

} // verus!
