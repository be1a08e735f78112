//! The character's state machine. Exactly one state is live at a time and
//! each state owns the character's body. Every transition takes the old
//! machine by value and returns the new one; a pair of state and event that
//! the transition table does not list returns the machine unchanged.

use vstd::prelude::*;
use crate::geometry::{Point, Vector};
use crate::physics::{
    animation_steps, pushed_left, pushed_right, GameObject, CRASHING_FRAMES,
    DEAD_ANIMATION, FLOOR, GAME_OVER_FRAMES, IDLE_ANIMATION, IDLE_FRAMES, JUMPING_ANIMATION,
    JUMPING_FRAMES, JUMP_IMPULSE, RUNNING_ANIMATION, RUNNING_FRAMES, RUN_SPEED, SLIDE_OFFSET,
    SLIDING_ANIMATION, SLIDING_FRAMES, SPAWN_X, SPAWN_Y, TERMINAL_VELOCITY,
};

verus! {

/// The name of a state, without the body it owns.
#[derive(Debug, Clone, Copy, PartialEq, Eq, Structural)]
pub enum State {
    Idle,
    Running,
    Jumping,
    Sliding,
    Crashing,
    GameOver,
}

/// What can happen to the character: the five inputs, a landing at a given
/// height, and the passing of one simulation step.
#[derive(Debug, Clone, Copy, PartialEq, Eq, Structural)]
pub enum Event {
    Run,
    Moonwalk,
    Jump,
    Slide,
    Kill,
    Land(i16),
    Update,
}

impl State {
    /// The number of pictures in the state's animation.
    pub open spec fn frames(self) -> u8 {
        match self {
            State::Idle => IDLE_FRAMES,
            State::Running => RUNNING_FRAMES,
            State::Jumping => JUMPING_FRAMES,
            State::Sliding => SLIDING_FRAMES,
            State::Crashing => CRASHING_FRAMES,
            State::GameOver => GAME_OVER_FRAMES,
        }
    }

    /// The name of the state's animation. A crash and the end of the game
    /// share one.
    pub open spec fn animation(self) -> Seq<char> {
        match self {
            State::Idle => IDLE_ANIMATION@,
            State::Running => RUNNING_ANIMATION@,
            State::Jumping => JUMPING_ANIMATION@,
            State::Sliding => SLIDING_ANIMATION@,
            State::Crashing => DEAD_ANIMATION@,
            State::GameOver => DEAD_ANIMATION@,
        }
    }

    /// The transition table's domain: whether it has a row for `event` in
    /// this state. Landing and the passing of a step are listed for every
    /// state.
    pub open spec fn lists(self, event: Event) -> bool {
        match event {
            Event::Run => self is Idle || self is Running,
            Event::Moonwalk => self is Running,
            Event::Jump => self is Running,
            Event::Slide => self is Running,
            Event::Kill => self is Running || self is Jumping,
            Event::Land(_) => true,
            Event::Update => true,
        }
    }
}

/// The character's state machine: one variant for each state, each holding
/// the body.
#[derive(Debug, Clone, Copy, PartialEq, Eq, Structural)]
pub enum RedHatBoyStateMachine {
    Idle(GameObject),
    Running(GameObject),
    Jumping(GameObject),
    Sliding(GameObject),
    Crashing(GameObject),
    GameOver(GameObject),
}

impl RedHatBoyStateMachine {
    /// The body that the live state owns.
    pub open spec fn body(self) -> GameObject {
        match self {
            RedHatBoyStateMachine::Idle(object) => object,
            RedHatBoyStateMachine::Running(object) => object,
            RedHatBoyStateMachine::Jumping(object) => object,
            RedHatBoyStateMachine::Sliding(object) => object,
            RedHatBoyStateMachine::Crashing(object) => object,
            RedHatBoyStateMachine::GameOver(object) => object,
        }
    }

    /// The name of the live state.
    pub open spec fn tag(self) -> State {
        match self {
            RedHatBoyStateMachine::Idle(_) => State::Idle,
            RedHatBoyStateMachine::Running(_) => State::Running,
            RedHatBoyStateMachine::Jumping(_) => State::Jumping,
            RedHatBoyStateMachine::Sliding(_) => State::Sliding,
            RedHatBoyStateMachine::Crashing(_) => State::Crashing,
            RedHatBoyStateMachine::GameOver(_) => State::GameOver,
        }
    }

    /// The machine in state `state` with body `object`.
    pub open spec fn of(state: State, object: GameObject) -> Self {
        match state {
            State::Idle => RedHatBoyStateMachine::Idle(object),
            State::Running => RedHatBoyStateMachine::Running(object),
            State::Jumping => RedHatBoyStateMachine::Jumping(object),
            State::Sliding => RedHatBoyStateMachine::Sliding(object),
            State::Crashing => RedHatBoyStateMachine::Crashing(object),
            State::GameOver => RedHatBoyStateMachine::GameOver(object),
        }
    }

    /// What every machine reached from the spawn satisfies. The frame counter
    /// stays inside the state's animation (a slide and a crash end one step
    /// before their animation would start again, and the end of the game pins
    /// the counter), the horizontal speed stays within the running speed, and
    /// only a jump has any vertical velocity.
    pub open spec fn wf(self) -> bool {
        let object = self.body();
        match self {
            RedHatBoyStateMachine::Idle(_) => {
                &&& object.frame < animation_steps(IDLE_FRAMES)
                &&& object.velocity == (Vector { x: 0, y: 0 })
            },
            RedHatBoyStateMachine::Running(_) => {
                &&& object.frame < animation_steps(RUNNING_FRAMES)
                &&& -RUN_SPEED <= object.velocity.x <= RUN_SPEED
                &&& object.velocity.y == 0
            },
            RedHatBoyStateMachine::Jumping(_) => {
                &&& object.frame < animation_steps(JUMPING_FRAMES)
                &&& -RUN_SPEED <= object.velocity.x <= RUN_SPEED
                &&& JUMP_IMPULSE <= object.velocity.y <= TERMINAL_VELOCITY
            },
            RedHatBoyStateMachine::Sliding(_) => {
                &&& object.frame < animation_steps(SLIDING_FRAMES) - 1
                &&& -RUN_SPEED <= object.velocity.x <= RUN_SPEED
                &&& object.velocity.y == 0
            },
            RedHatBoyStateMachine::Crashing(_) => {
                &&& object.frame < animation_steps(CRASHING_FRAMES) - 1
                &&& object.velocity == (Vector { x: 0, y: 0 })
            },
            RedHatBoyStateMachine::GameOver(_) => {
                &&& object.frame == GAME_OVER_FRAMES
                &&& object.velocity == (Vector { x: 0, y: 0 })
            },
        }
    }

    /// The body as a landing at height `on` leaves it when it ends a jump:
    /// standing at that height, its animation started again.
    pub open spec fn touched_down(object: GameObject, on: i16) -> GameObject {
        GameObject {
            frame: 0,
            position: Point { x: object.position.x, y: on },
            velocity: Vector { x: object.velocity.x, y: 0 },
        }
    }

    /// The machine one simulation step later.
    ///
    /// Standing and running move the body and let the animation go round. A
    /// jump first feels gravity, then moves, and ends on the floor as soon as
    /// the body has reached it. A slide ends when its animation does, and
    /// the character stands up again. A crash ends when its animation does,
    /// in the end of the game, where nothing moves any more.
    pub open spec fn updated(self) -> Self {
        match self {
            RedHatBoyStateMachine::Idle(object) => RedHatBoyStateMachine::Idle(
                object.stepped(IDLE_FRAMES),
            ),
            RedHatBoyStateMachine::Running(object) => RedHatBoyStateMachine::Running(
                object.stepped(RUNNING_FRAMES),
            ),
            RedHatBoyStateMachine::Jumping(object) => {
                let next = object.fallen().stepped(JUMPING_FRAMES);
                if next.position.y >= FLOOR {
                    RedHatBoyStateMachine::Running(Self::touched_down(next, FLOOR))
                } else {
                    RedHatBoyStateMachine::Jumping(next)
                }
            },
            RedHatBoyStateMachine::Sliding(object) => {
                let next = object.stepped(SLIDING_FRAMES);
                if next.finished(SLIDING_FRAMES) {
                    RedHatBoyStateMachine::Running(
                        GameObject {
                            frame: 0,
                            position: Point {
                                x: next.position.x,
                                y: next.position.y.wrapping_sub(SLIDE_OFFSET),
                            },
                            velocity: next.velocity,
                        },
                    )
                } else {
                    RedHatBoyStateMachine::Sliding(next)
                }
            },
            RedHatBoyStateMachine::Crashing(object) => {
                let next = object.stepped(CRASHING_FRAMES);
                if next.finished(CRASHING_FRAMES) {
                    RedHatBoyStateMachine::GameOver(next)
                } else {
                    RedHatBoyStateMachine::Crashing(next)
                }
            },
            RedHatBoyStateMachine::GameOver(object) => RedHatBoyStateMachine::GameOver(
                GameObject { frame: GAME_OVER_FRAMES, ..object },
            ),
        }
    }

    /// The transition table: the machine after `event`.
    pub open spec fn step(self, event: Event) -> Self {
        let object = self.body();
        match event {
            Event::Run => match self {
                RedHatBoyStateMachine::Idle(_) => RedHatBoyStateMachine::Running(
                    GameObject {
                        frame: 0,
                        position: object.position,
                        velocity: Vector { x: pushed_right(object.velocity.x), y: object.velocity.y },
                    },
                ),
                RedHatBoyStateMachine::Running(_) => RedHatBoyStateMachine::Running(
                    GameObject {
                        velocity: Vector { x: pushed_right(object.velocity.x), y: object.velocity.y },
                        ..object
                    },
                ),
                _ => self,
            },
            Event::Moonwalk => match self {
                RedHatBoyStateMachine::Running(_) => RedHatBoyStateMachine::Running(
                    GameObject {
                        velocity: Vector { x: pushed_left(object.velocity.x), y: object.velocity.y },
                        ..object
                    },
                ),
                _ => self,
            },
            Event::Jump => match self {
                RedHatBoyStateMachine::Running(_) => RedHatBoyStateMachine::Jumping(
                    GameObject {
                        frame: 0,
                        position: object.position,
                        velocity: Vector { x: object.velocity.x, y: JUMP_IMPULSE },
                    },
                ),
                _ => self,
            },
            Event::Slide => match self {
                RedHatBoyStateMachine::Running(_) => RedHatBoyStateMachine::Sliding(
                    GameObject {
                        frame: 0,
                        position: Point {
                            x: object.position.x,
                            y: object.position.y.wrapping_add(SLIDE_OFFSET),
                        },
                        velocity: object.velocity,
                    },
                ),
                _ => self,
            },
            Event::Kill => match self {
                RedHatBoyStateMachine::Running(_) | RedHatBoyStateMachine::Jumping(_) => {
                    RedHatBoyStateMachine::Crashing(
                        GameObject {
                            frame: 0,
                            position: object.position,
                            velocity: Vector { x: 0, y: 0 },
                        },
                    )
                },
                _ => self,
            },
            Event::Land(on) => match self {
                RedHatBoyStateMachine::Jumping(_) => RedHatBoyStateMachine::Running(
                    Self::touched_down(object, on),
                ),
                _ => Self::of(
                    self.tag(),
                    GameObject { position: Point { x: object.position.x, y: on }, ..object },
                ),
            },
            Event::Update => self.updated(),
        }
    }

    /// The machine after `steps` simulation steps with no other event.
    pub open spec fn after(self, steps: nat) -> Self
        decreases steps,
    {
        if steps == 0 {
            self
        } else {
            self.after((steps - 1) as nat).updated()
        }
    }

    /// The machine after the events of `events`, in their order.
    pub open spec fn run_through(self, events: Seq<Event>) -> Self
        decreases events.len(),
    {
        if events.len() == 0 {
            self
        } else {
            self.run_through(events.drop_last()).step(events.last())
        }
    }

    /// The machine at the start of the game: idle at the spawn, at rest.
    pub open spec fn spawned() -> Self {
        RedHatBoyStateMachine::Idle(
            GameObject {
                frame: 0,
                position: Point { x: SPAWN_X, y: SPAWN_Y },
                velocity: Vector { x: 0, y: 0 },
            },
        )
    }

    /// The machine at the start of the game.
    pub fn new() -> (machine: Self)
        ensures
            machine == Self::spawned(),
            machine.wf(),
    {
        RedHatBoyStateMachine::Idle(
            GameObject {
                frame: 0,
                position: Point { x: SPAWN_X, y: SPAWN_Y },
                velocity: Vector { x: 0, y: 0 },
            },
        )
    }

    /// The name of the live state.
    pub fn state(&self) -> (state: State)
        ensures
            state == self.tag(),
    {
        match self {
            RedHatBoyStateMachine::Idle(_) => State::Idle,
            RedHatBoyStateMachine::Running(_) => State::Running,
            RedHatBoyStateMachine::Jumping(_) => State::Jumping,
            RedHatBoyStateMachine::Sliding(_) => State::Sliding,
            RedHatBoyStateMachine::Crashing(_) => State::Crashing,
            RedHatBoyStateMachine::GameOver(_) => State::GameOver,
        }
    }

    /// The body that the live state owns.
    pub fn game_object(&self) -> (object: &GameObject)
        ensures
            *object == self.body(),
    {
        match self {
            RedHatBoyStateMachine::Idle(object) => object,
            RedHatBoyStateMachine::Running(object) => object,
            RedHatBoyStateMachine::Jumping(object) => object,
            RedHatBoyStateMachine::Sliding(object) => object,
            RedHatBoyStateMachine::Crashing(object) => object,
            RedHatBoyStateMachine::GameOver(object) => object,
        }
    }

    /// The number of pictures in the live state's animation.
    pub fn frame_count(&self) -> (count: u8)
        ensures
            count == self.tag().frames(),
    {
        match self {
            RedHatBoyStateMachine::Idle(_) => IDLE_FRAMES,
            RedHatBoyStateMachine::Running(_) => RUNNING_FRAMES,
            RedHatBoyStateMachine::Jumping(_) => JUMPING_FRAMES,
            RedHatBoyStateMachine::Sliding(_) => SLIDING_FRAMES,
            RedHatBoyStateMachine::Crashing(_) => CRASHING_FRAMES,
            RedHatBoyStateMachine::GameOver(_) => GAME_OVER_FRAMES,
        }
    }

    /// The name of the live state's animation.
    pub fn animation(&self) -> (name: &'static str)
        ensures
            name@ == self.tag().animation(),
    {
        match self {
            RedHatBoyStateMachine::Idle(_) => IDLE_ANIMATION,
            RedHatBoyStateMachine::Running(_) => RUNNING_ANIMATION,
            RedHatBoyStateMachine::Jumping(_) => JUMPING_ANIMATION,
            RedHatBoyStateMachine::Sliding(_) => SLIDING_ANIMATION,
            RedHatBoyStateMachine::Crashing(_) => DEAD_ANIMATION,
            RedHatBoyStateMachine::GameOver(_) => DEAD_ANIMATION,
        }
    }

    /// Starts running from a standstill, or pushes a running character
    /// further to the right.
    pub fn run(self) -> (next: Self)
        ensures
            next == self.step(Event::Run),
            self.wf() ==> next.wf(),
    {
        match self {
            RedHatBoyStateMachine::Idle(object) => RedHatBoyStateMachine::Running(
                object.reset_frame().run_right(),
            ),
            RedHatBoyStateMachine::Running(object) => RedHatBoyStateMachine::Running(
                object.run_right(),
            ),
            _ => self,
        }
    }

    /// Takes off from a run.
    pub fn jump(self) -> (next: Self)
        ensures
            next == self.step(Event::Jump),
            self.wf() ==> next.wf(),
    {
        match self {
            RedHatBoyStateMachine::Running(object) => RedHatBoyStateMachine::Jumping(
                object.reset_frame().jump(),
            ),
            _ => self,
        }
    }

    /// Drops from a run into a slide.
    pub fn slide(self) -> (next: Self)
        ensures
            next == self.step(Event::Slide),
            self.wf() ==> next.wf(),
    {
        match self {
            RedHatBoyStateMachine::Running(object) => RedHatBoyStateMachine::Sliding(
                object.reset_frame().slide(),
            ),
            _ => self,
        }
    }

    /// Pushes a running character to the left.
    pub fn moonwalk(self) -> (next: Self)
        ensures
            next == self.step(Event::Moonwalk),
            self.wf() ==> next.wf(),
    {
        match self {
            RedHatBoyStateMachine::Running(object) => RedHatBoyStateMachine::Running(
                object.go_left(),
            ),
            _ => self,
        }
    }

    /// Knocks a running or jumping character over.
    pub fn kill(self) -> (next: Self)
        ensures
            next == self.step(Event::Kill),
            self.wf() ==> next.wf(),
    {
        match self {
            RedHatBoyStateMachine::Running(object) => RedHatBoyStateMachine::Crashing(
                object.reset_frame().kill(),
            ),
            RedHatBoyStateMachine::Jumping(object) => RedHatBoyStateMachine::Crashing(
                object.reset_frame().kill(),
            ),
            _ => self,
        }
    }

    /// Puts the character at height `on`. This ends a jump; in any other
    /// state only the height changes.
    pub fn land(self, on: i16) -> (next: Self)
        ensures
            next == self.step(Event::Land(on)),
            self.wf() ==> next.wf(),
    {
        match self {
            RedHatBoyStateMachine::Jumping(object) => RedHatBoyStateMachine::Running(
                object.set_on(on).reset_frame().land(),
            ),
            RedHatBoyStateMachine::Idle(object) => RedHatBoyStateMachine::Idle(object.set_on(on)),
            RedHatBoyStateMachine::Running(object) => RedHatBoyStateMachine::Running(
                object.set_on(on),
            ),
            RedHatBoyStateMachine::Sliding(object) => RedHatBoyStateMachine::Sliding(
                object.set_on(on),
            ),
            RedHatBoyStateMachine::Crashing(object) => RedHatBoyStateMachine::Crashing(
                object.set_on(on),
            ),
            RedHatBoyStateMachine::GameOver(object) => RedHatBoyStateMachine::GameOver(
                object.set_on(on),
            ),
        }
    }

    /// Lets one simulation step pass.
    pub fn update(self) -> (next: Self)
        ensures
            next == self.step(Event::Update),
            self.wf() ==> next.wf(),
    {
        let frame_count = self.frame_count();
        match self {
            RedHatBoyStateMachine::Jumping(object) => {
                let object = object.fall().update(frame_count);
                if object.position.y >= FLOOR {
                    RedHatBoyStateMachine::Running(object.set_on(FLOOR).reset_frame().land())
                } else {
                    RedHatBoyStateMachine::Jumping(object)
                }
            },
            RedHatBoyStateMachine::Sliding(object) => {
                let object = object.update(frame_count);
                if object.animation_finished(frame_count) {
                    RedHatBoyStateMachine::Running(object.reset_frame().stand_up())
                } else {
                    RedHatBoyStateMachine::Sliding(object)
                }
            },
            RedHatBoyStateMachine::Idle(object) => RedHatBoyStateMachine::Idle(
                object.update(frame_count),
            ),
            RedHatBoyStateMachine::Running(object) => RedHatBoyStateMachine::Running(
                object.update(frame_count),
            ),
            RedHatBoyStateMachine::Crashing(object) => {
                let object = object.update(frame_count);
                if object.animation_finished(frame_count) {
                    RedHatBoyStateMachine::GameOver(object)
                } else {
                    RedHatBoyStateMachine::Crashing(object)
                }
            },
            RedHatBoyStateMachine::GameOver(object) => RedHatBoyStateMachine::GameOver(
                GameObject { frame: frame_count, ..object },
            ),
        }
    }

    /// Applies one event of any kind.
    pub fn apply(self, event: Event) -> (next: Self)
        ensures
            next == self.step(event),
            self.wf() ==> next.wf(),
            !self.tag().lists(event) ==> next == self,
    {
        match event {
            Event::Run => self.run(),
            Event::Moonwalk => self.moonwalk(),
            Event::Jump => self.jump(),
            Event::Slide => self.slide(),
            Event::Kill => self.kill(),
            Event::Land(on) => self.land(on),
            Event::Update => self.update(),
        }
    }
}

} // verus!
