//! Which frame of its sprite sheet a creature's body shows.
//!
//! The sheet holds a loop of six frames for standing legs, then, from frame
//! eight on, a loop of eight frames for running legs; wings have a sheet of
//! their own with a loop of five frames. The clock that says when the next
//! frame is due is the caller's.

use crate::greacher::GreacherBodyType;
use vstd::prelude::*;

verus! {

/// What a pair of legs is doing.
#[derive(Clone, Copy, Debug, PartialEq, Eq, Structural)]
pub enum LegState {
    Idle,
    Run,
}

/// What a body is doing.
#[derive(Clone, Copy, Debug, PartialEq, Eq, Structural)]
pub enum GreacherAnimationState {
    Legs(LegState),
    Wings,
}

/// Number of frames in the loop of a state.
pub open spec fn loop_length(state: GreacherAnimationState) -> usize {
    match state {
        GreacherAnimationState::Legs(LegState::Idle) => 6,
        GreacherAnimationState::Legs(LegState::Run) => 8,
        GreacherAnimationState::Wings => 5,
    }
}

/// Place in the sheet of the first frame of the loop of a state.
pub open spec fn loop_start(state: GreacherAnimationState) -> usize {
    match state {
        GreacherAnimationState::Legs(LegState::Run) => 8,
        _ => 0,
    }
}

/// The frame that follows frame `counter` of state `before` when the body
/// is in state `now`: the first frame of the loop after a change of state or
/// at the end of the loop, else the next frame.
pub open spec fn next_frame(
    before: GreacherAnimationState,
    counter: usize,
    now: GreacherAnimationState,
) -> usize {
    if now != before || counter + 1 >= loop_length(now) {
        0
    } else {
        (counter + 1) as usize
    }
}

/// The state of a body of the given type, moving or still.
pub fn get_greacher_state(body_type: GreacherBodyType, moving: bool) -> (state:
    GreacherAnimationState)
    ensures
        state == match body_type {
            GreacherBodyType::Legs => if moving {
                GreacherAnimationState::Legs(LegState::Run)
            } else {
                GreacherAnimationState::Legs(LegState::Idle)
            },
            GreacherBodyType::Wings => GreacherAnimationState::Wings,
        },
{
    match body_type {
        GreacherBodyType::Legs => {
            if moving {
                GreacherAnimationState::Legs(LegState::Run)
            } else {
                GreacherAnimationState::Legs(LegState::Idle)
            }
        },
        GreacherBodyType::Wings => GreacherAnimationState::Wings,
    }
}

/// Where a body is in its animation.
#[derive(Clone, Copy, Debug, PartialEq, Eq, Structural)]
pub struct GreacherBodyAnimation {
    pub frame_counter: usize,
    pub state: GreacherAnimationState,
}

impl GreacherBodyAnimation {
    /// The animation of a body at rest, at its first frame.
    pub fn new(body_type: &GreacherBodyType) -> (animation: GreacherBodyAnimation)
        ensures
            animation.frame_counter == 0,
            animation.state == match *body_type {
                GreacherBodyType::Legs => GreacherAnimationState::Legs(LegState::Idle),
                GreacherBodyType::Wings => GreacherAnimationState::Wings,
            },
    {
        GreacherBodyAnimation {
            frame_counter: 0,
            state: match body_type {
                GreacherBodyType::Legs => GreacherAnimationState::Legs(LegState::Idle),
                GreacherBodyType::Wings => GreacherAnimationState::Wings,
            },
        }
    }

    /// Moves on by one frame, with the body now in `state`. Returns the
    /// place in the sheet of the frame to show. A body that stays in its
    /// state needs a counter that can still be raised.
    pub fn advance(&mut self, state: GreacherAnimationState) -> (sprite_index: usize)
        requires
            state == old(self).state ==> old(self).frame_counter < usize::MAX,
        ensures
            final(self).state == state,
            final(self).frame_counter == next_frame(
                old(self).state,
                old(self).frame_counter,
                state,
            ),
            final(self).frame_counter < loop_length(state),
            sprite_index == loop_start(state) + final(self).frame_counter,
    {
        let old_state = self.state;
        self.state = state;

        if self.state != old_state {
            self.frame_counter = 0;
        } else {
            self.frame_counter += 1;
        }

        match self.state {
            GreacherAnimationState::Legs(leg_state) => {
                match leg_state {
                    LegState::Idle => {
                        if self.frame_counter >= 6 {
                            self.frame_counter = 0;
                        }
                        self.frame_counter
                    },
                    LegState::Run => {
                        if self.frame_counter >= 8 {
                            self.frame_counter = 0;
                        }
                        8 + self.frame_counter
                    },
                }
            },
            GreacherAnimationState::Wings => {
                if self.frame_counter >= 5 {
                    self.frame_counter = 0;
                }
                self.frame_counter
            },
        }
    }
}

} // verus!
