//! The physical body of the character and the constants of its world.
//! A body is a plain value: every operation returns the new body and leaves
//! the old one as it was.

use vstd::prelude::*;
use crate::geometry::{Point, Vector};

verus! {

/// Added to the vertical velocity on every step spent in the air.
pub const GRAVITY: i16 = 1;

/// The vertical velocity never grows beyond this while falling.
pub const TERMINAL_VELOCITY: i16 = 20;

/// The lowest line the character's position can reach while airborne.
pub const FLOOR: i16 = 600;

/// The horizontal speed gained by one push to the right or to the left, and
/// the largest horizontal speed in either direction.
pub const RUN_SPEED: i16 = 4;

/// The vertical velocity at the start of a jump.
pub const JUMP_IMPULSE: i16 = -25;

/// How far the character sinks while it slides.
pub const SLIDE_OFFSET: i16 = 15;

/// Where the character stands when the game starts, from the left.
pub const SPAWN_X: i16 = 0;

/// Where the character stands when the game starts, from the top.
pub const SPAWN_Y: i16 = 485;

/// Simulation steps spent on each picture of an animation.
pub const STEPS_PER_FRAME: u8 = 3;

/// The number of pictures in the animation of a standing character.
pub const IDLE_FRAMES: u8 = 10;

/// The number of pictures in the animation of a run.
pub const RUNNING_FRAMES: u8 = 8;

/// The number of pictures in the animation of a jump.
pub const JUMPING_FRAMES: u8 = 12;

/// The number of pictures in the animation of a slide.
pub const SLIDING_FRAMES: u8 = 5;

/// The number of pictures in the animation of a crash.
pub const CRASHING_FRAMES: u8 = 10;

/// The frame that the end of the game holds on to.
pub const GAME_OVER_FRAMES: u8 = 29;

/// The name of the animation of a standing character.
pub const IDLE_ANIMATION: &'static str = "Idle";

/// The name of the animation of a run.
pub const RUNNING_ANIMATION: &'static str = "Run";

/// The name of the animation of a jump.
pub const JUMPING_ANIMATION: &'static str = "Jump";

/// The name of the animation of a slide.
pub const SLIDING_ANIMATION: &'static str = "Slide";

/// The name of the animation of a crash, which the end of the game shows too.
pub const DEAD_ANIMATION: &'static str = "Dead";

/// The number of simulation steps that an animation of `frame_count` pictures
/// lasts.
pub open spec fn animation_steps(frame_count: u8) -> int {
    STEPS_PER_FRAME * frame_count
}

fn steps_of(frame_count: u8) -> (steps: u16)
    ensures
        steps == animation_steps(frame_count),
{
    assert(STEPS_PER_FRAME * frame_count <= 765) by (nonlinear_arith)
        requires
            STEPS_PER_FRAME == 3,
            frame_count <= 255,
    ;
    STEPS_PER_FRAME as u16 * frame_count as u16
}

/// The frame counter after one more step of an animation of `frame_count`
/// pictures: it counts up to the last step, or as far as a byte can count,
/// and then starts again at 0.
pub open spec fn next_frame(frame: u8, frame_count: u8) -> u8 {
    if frame + 1 < animation_steps(frame_count) && frame < u8::MAX {
        (frame + 1) as u8
    } else {
        0
    }
}

/// The horizontal velocity after a push to the right.
pub open spec fn pushed_right(x: i16) -> i16 {
    if x + RUN_SPEED > RUN_SPEED {
        RUN_SPEED
    } else {
        (x + RUN_SPEED) as i16
    }
}

/// The horizontal velocity after a push to the left.
pub open spec fn pushed_left(x: i16) -> i16 {
    if x - RUN_SPEED < -RUN_SPEED {
        (-RUN_SPEED) as i16
    } else {
        (x - RUN_SPEED) as i16
    }
}

/// The vertical velocity after one step of gravity.
pub open spec fn pulled_down(y: i16) -> i16 {
    if y + GRAVITY > TERMINAL_VELOCITY {
        TERMINAL_VELOCITY
    } else {
        (y + GRAVITY) as i16
    }
}

/// The physical body of the character.
#[derive(Debug, Clone, Copy, PartialEq, Eq, Structural)]
pub struct GameObject {
    pub frame: u8,
    pub position: Point,
    pub velocity: Vector,
}

impl GameObject {
    /// The body one step later: moved by its velocity, its animation one
    /// step further.
    pub open spec fn stepped(self, frame_count: u8) -> GameObject {
        GameObject {
            frame: next_frame(self.frame, frame_count),
            position: self.position.moved(self.velocity),
            velocity: self.velocity,
        }
    }

    /// The body after gravity has acted on it for one step.
    pub open spec fn fallen(self) -> GameObject {
        GameObject { velocity: Vector { x: self.velocity.x, y: pulled_down(self.velocity.y) }, ..self }
    }

    /// Whether an animation of `frame_count` pictures has reached its last step.
    pub open spec fn finished(self, frame_count: u8) -> bool {
        self.frame + 1 >= animation_steps(frame_count)
    }

    /// Pushes the body to the right.
    pub fn run_right(self) -> (next: GameObject)
        ensures
            next == (GameObject {
                velocity: Vector { x: pushed_right(self.velocity.x), y: self.velocity.y },
                ..self
            }),
    {
        let x: i16 = if self.velocity.x > 0 {
            RUN_SPEED
        } else {
            self.velocity.x + RUN_SPEED
        };
        GameObject { velocity: Vector { x, y: self.velocity.y }, ..self }
    }

    /// Pushes the body to the left.
    pub fn go_left(self) -> (next: GameObject)
        ensures
            next == (GameObject {
                velocity: Vector { x: pushed_left(self.velocity.x), y: self.velocity.y },
                ..self
            }),
    {
        let x: i16 = if self.velocity.x < 0 {
            -RUN_SPEED
        } else {
            self.velocity.x - RUN_SPEED
        };
        GameObject { velocity: Vector { x, y: self.velocity.y }, ..self }
    }

    /// Puts the body at height `y`.
    pub fn set_on(self, y: i16) -> (next: GameObject)
        ensures
            next == (GameObject { position: Point { x: self.position.x, y }, ..self }),
    {
        GameObject { position: Point { x: self.position.x, y }, ..self }
    }

    /// Gives the body the upward velocity of a jump.
    pub fn jump(self) -> (next: GameObject)
        ensures
            next == (GameObject {
                velocity: Vector { x: self.velocity.x, y: JUMP_IMPULSE },
                ..self
            }),
    {
        GameObject { velocity: Vector { x: self.velocity.x, y: JUMP_IMPULSE }, ..self }
    }

    /// Lets gravity act on the body for one step.
    pub fn fall(self) -> (next: GameObject)
        ensures
            next == self.fallen(),
    {
        let y: i16 = if self.velocity.y >= TERMINAL_VELOCITY {
            TERMINAL_VELOCITY
        } else {
            self.velocity.y + GRAVITY
        };
        GameObject { velocity: Vector { x: self.velocity.x, y }, ..self }
    }

    /// Moves the body by its velocity and advances its animation, which has
    /// `frame_count` pictures, by one step.
    pub fn update(self, frame_count: u8) -> (next: GameObject)
        ensures
            next == self.stepped(frame_count),
    {
        let limit: u16 = steps_of(frame_count);
        let frame: u8 = if (self.frame as u16) + 1 < limit && self.frame < u8::MAX {
            self.frame + 1
        } else {
            0
        };
        GameObject { frame, position: self.position.offset_by(self.velocity), velocity: self.velocity }
    }

    /// Stops the vertical movement.
    pub fn land(self) -> (next: GameObject)
        ensures
            next == (GameObject { velocity: Vector { x: self.velocity.x, y: 0 }, ..self }),
    {
        GameObject { velocity: Vector { x: self.velocity.x, y: 0 }, ..self }
    }

    /// Lowers the body by the slide offset.
    pub fn slide(self) -> (next: GameObject)
        ensures
            next == (GameObject {
                position: Point {
                    x: self.position.x,
                    y: self.position.y.wrapping_add(SLIDE_OFFSET),
                },
                ..self
            }),
    {
        GameObject {
            position: Point { x: self.position.x, y: self.position.y.wrapping_add(SLIDE_OFFSET) },
            ..self
        }
    }

    /// Raises the body by the slide offset.
    pub fn stand_up(self) -> (next: GameObject)
        ensures
            next == (GameObject {
                position: Point {
                    x: self.position.x,
                    y: self.position.y.wrapping_sub(SLIDE_OFFSET),
                },
                ..self
            }),
    {
        GameObject {
            position: Point { x: self.position.x, y: self.position.y.wrapping_sub(SLIDE_OFFSET) },
            ..self
        }
    }

    /// Starts the animation again.
    pub fn reset_frame(self) -> (next: GameObject)
        ensures
            next == (GameObject { frame: 0, ..self }),
    {
        GameObject { frame: 0, ..self }
    }

    /// Stops the body.
    pub fn kill(self) -> (next: GameObject)
        ensures
            next == (GameObject { velocity: Vector { x: 0, y: 0 }, ..self }),
    {
        GameObject { velocity: Vector { x: 0, y: 0 }, ..self }
    }

    /// Whether an animation of `frame_count` pictures has reached its last step.
    pub fn animation_finished(&self, frame_count: u8) -> (done: bool)
        ensures
            done == self.finished(frame_count),
    {
        self.frame as u16 + 1 >= steps_of(frame_count)
    }
}

} // verus!
