//! The character in its world: the state machine together with the sprite
//! sheet that gives each of its pictures a box. Collisions never move the
//! character themselves; they ask the state machine for a landing or a
//! death.

use vstd::prelude::*;
use vstd::string::StringExecFns;
use crate::geometry::{Point, Rect};
use crate::machine::{Event, RedHatBoyStateMachine};
use crate::naming::frame_cell;
use crate::physics::{
    DEAD_ANIMATION, FLOOR, IDLE_ANIMATION, JUMPING_ANIMATION, RUNNING_ANIMATION,
    SLIDING_ANIMATION, STEPS_PER_FRAME,
};
use crate::sheet::{describes, Blit, LookupError, Sheet, SpriteSheet};

verus! {

/// A platform: a box of the world that the character can land on, and that
/// kills it when it runs into it.
#[derive(Debug, Clone, Copy, PartialEq, Eq, Structural)]
pub struct Platform {
    /// The top-left corner.
    pub position: Point,
    /// The extent; of this box only the width and the height count.
    pub bounding_box: Rect,
}

impl Platform {
    /// The box that the platform fills.
    pub open spec fn bounds(self) -> Rect {
        Rect {
            x: self.position.x as i32,
            y: self.position.y as i32,
            width: self.bounding_box.width,
            height: self.bounding_box.height,
        }
    }

    /// The box that the platform fills.
    pub fn bounding_box(&self) -> (bounds: Rect)
        ensures
            bounds == self.bounds(),
    {
        Rect {
            x: self.position.x as i32,
            y: self.position.y as i32,
            width: self.bounding_box.width,
            height: self.bounding_box.height,
        }
    }
}

/// Whether `name` is the name of one of the character's animations.
pub open spec fn is_character_animation(name: Seq<char>) -> bool {
    ||| name == IDLE_ANIMATION@
    ||| name == RUNNING_ANIMATION@
    ||| name == JUMPING_ANIMATION@
    ||| name == SLIDING_ANIMATION@
    ||| name == DEAD_ANIMATION@
}

/// The number of the picture that the machine shows: each picture stays for
/// three steps.
pub open spec fn picture(machine: RedHatBoyStateMachine) -> int {
    machine.body().frame as int / 3
}

/// The box that the character fills in the world: the box of the picture
/// it shows, moved to the character's position.
pub open spec fn hit_box(sprites: &SpriteSheet, machine: RedHatBoyStateMachine) -> Rect {
    let local = sprites.box_at(machine.tag().animation(), picture(machine));
    Rect {
        x: (machine.body().position.x + local.x) as i32,
        y: (machine.body().position.y + local.y) as i32,
        width: local.width,
        height: local.height,
    }
}

/// The height to put a box of height `height` at so that its bottom comes to
/// lie on `surface`, kept within the 16-bit range.
pub open spec fn resting_height(surface: i16, height: i32) -> i16 {
    if surface - height < i16::MIN {
        i16::MIN
    } else if surface - height > i16::MAX {
        i16::MAX
    } else {
        (surface - height) as i16
    }
}

/// The machine after the character has been put down on `surface`: a landing
/// at the height at which the bottom of its box lies on the surface.
pub open spec fn landed_on(sprites: &SpriteSheet, machine: RedHatBoyStateMachine, surface: i16)
    -> RedHatBoyStateMachine {
    machine.step(Event::Land(resting_height(surface, hit_box(sprites, machine).height)))
}

/// Whether the character is landing on `rect`: its box overlaps it and its
/// position lies above the top edge of it.
pub open spec fn lands_on(sprites: &SpriteSheet, machine: RedHatBoyStateMachine, rect: Rect)
    -> bool {
    hit_box(sprites, machine).overlaps(rect) && machine.body().position.y < rect.y
}

/// Whether the bottom of the character's box has sunk below the floor of the
/// world.
pub open spec fn below_floor(sprites: &SpriteSheet, machine: RedHatBoyStateMachine) -> bool {
    machine.body().position.y + hit_box(sprites, machine).height > FLOOR
}

/// The machine after the character has met one platform: it lands on top
/// of a platform that it is landing on, any other platform that it touches
/// kills it, and a platform that it does not touch leaves it alone.
pub open spec fn after_platform(
    sprites: &SpriteSheet,
    machine: RedHatBoyStateMachine,
    platform: Platform,
) -> RedHatBoyStateMachine {
    if lands_on(sprites, machine, platform.bounds()) {
        landed_on(sprites, machine, platform.position.y)
    } else if hit_box(sprites, machine).overlaps(platform.bounds()) {
        machine.step(Event::Kill)
    } else {
        machine
    }
}

/// The character.
pub struct RedHatBoy {
    state: RedHatBoyStateMachine,
    animation: SpriteSheet,
}

impl RedHatBoy {
    /// The character's state machine.
    pub closed spec fn machine(&self) -> RedHatBoyStateMachine {
        self.state
    }

    /// The character's sprite sheet.
    pub closed spec fn sprites(&self) -> &SpriteSheet {
        &self.animation
    }

    /// The character at the start of the game, with the geometry of its
    /// five animations derived from `sheet`.
    pub fn new(sheet: Sheet) -> (boy: RedHatBoy)
        ensures
            boy.machine() == RedHatBoyStateMachine::spawned(),
            boy.sprites().atlas() == sheet@,
            boy.sprites().offsets().dom() == boy.sprites().sizes().dom(),
            forall|animation: Seq<char>| #[trigger]
                boy.sprites().offsets().contains_key(animation) <==> {
                    &&& is_character_animation(animation)
                    &&& sheet@.contains_key(frame_cell(animation, 1))
                },
            forall|animation: Seq<char>| #[trigger]
                boy.sprites().offsets().contains_key(animation) ==> describes(
                    sheet@,
                    animation,
                    boy.sprites().offsets()[animation],
                    boy.sprites().sizes()[animation],
                ),
    {
        let mut animations: Vec<String> = Vec::new();
        animations.push(String::from_str(IDLE_ANIMATION));
        animations.push(String::from_str(RUNNING_ANIMATION));
        animations.push(String::from_str(JUMPING_ANIMATION));
        animations.push(String::from_str(SLIDING_ANIMATION));
        animations.push(String::from_str(DEAD_ANIMATION));
        proof {
            assert(animations[0]@ == IDLE_ANIMATION@);
            assert(animations[1]@ == RUNNING_ANIMATION@);
            assert(animations[2]@ == JUMPING_ANIMATION@);
            assert(animations[3]@ == SLIDING_ANIMATION@);
            assert(animations[4]@ == DEAD_ANIMATION@);
        }
        RedHatBoy { state: RedHatBoyStateMachine::new(), animation: SpriteSheet::new(sheet, animations) }
    }

    /// The character's state machine.
    pub fn state(&self) -> (machine: RedHatBoyStateMachine)
        ensures
            machine == self.machine(),
    {
        self.state
    }

    /// The character's sprite sheet.
    pub fn sheet(&self) -> (sprites: &SpriteSheet)
        ensures
            sprites == self.sprites(),
    {
        &self.animation
    }

    /// The name of the animation that the character shows.
    pub fn animation_name(&self) -> (name: &'static str)
        ensures
            name@ == self.machine().tag().animation(),
    {
        self.state.animation()
    }

    /// The character's frame counter.
    pub fn frame(&self) -> (frame: u8)
        ensures
            frame == self.machine().body().frame,
    {
        self.state.game_object().frame
    }

    /// Where the character is.
    pub fn position(&self) -> (position: &Point)
        ensures
            *position == self.machine().body().position,
    {
        &self.state.game_object().position
    }

    /// Works out the drawing of the character: the picture that its frame
    /// counter selects from its animation, at its position. It fails
    /// exactly where the atlas lacks the cell of that picture.
    pub fn draw(&self) -> (drawn: Result<Blit, LookupError>)
        ensures
            match drawn {
                Ok(blit) => {
                    &&& self.sprites().atlas().contains_key(
                        frame_cell(self.machine().tag().animation(), picture(self.machine()) + 1),
                    )
                    &&& blit == self.sprites().blit_at(
                        self.sprites().atlas()[frame_cell(
                            self.machine().tag().animation(),
                            picture(self.machine()) + 1,
                        )],
                        self.machine().tag().animation(),
                        picture(self.machine()),
                        self.machine().body().position,
                    )
                },
                Err(error) => {
                    &&& !self.sprites().atlas().contains_key(
                        frame_cell(self.machine().tag().animation(), picture(self.machine()) + 1),
                    )
                    &&& error.cell@ == frame_cell(
                        self.machine().tag().animation(),
                        picture(self.machine()) + 1,
                    )
                },
            },
    {
        self.animation.draw(
            self.animation_name(),
            (self.frame() / STEPS_PER_FRAME) as i16,
            self.position(),
        )
    }

    /// The box that the character fills in the world.
    pub fn bounding_box(&self) -> (bounds: Rect)
        ensures
            bounds == hit_box(self.sprites(), self.machine()),
    {
        let bounding_box = self.animation.bounding_box_for(
            self.animation_name(),
            (self.frame() / STEPS_PER_FRAME) as i16,
        );
        Rect {
            x: self.position().x as i32 + bounding_box.x,
            y: self.position().y as i32 + bounding_box.y,
            width: bounding_box.width,
            height: bounding_box.height,
        }
    }

    /// Lets the character meet a platform.
    pub fn check_platform_collisions(&mut self, platform: &Platform)
        ensures
            final(self).machine() == after_platform(
                old(self).sprites(),
                old(self).machine(),
                *platform,
            ),
            final(self).sprites() == old(self).sprites(),
    {
        if self.landing_on(&platform.bounding_box()) {
            self.land_on(platform.position.y);
        } else if self.collides_with(&platform.bounding_box()) {
            self.kill();
        }
    }

    /// Whether the character's box overlaps `rect`.
    pub fn collides_with(&self, rect: &Rect) -> (hit: bool)
        ensures
            hit == hit_box(self.sprites(), self.machine()).overlaps(*rect),
    {
        self.bounding_box().intersects(rect)
    }

    /// Whether the bottom of the character's box has sunk below the floor of
    /// the world.
    pub fn landing(&self) -> (sunk: bool)
        ensures
            sunk == below_floor(self.sprites(), self.machine()),
    {
        self.position().y as i64 + self.bounding_box().height as i64 > FLOOR as i64
    }

    /// Whether the character is landing on `rect`.
    pub fn landing_on(&self, rect: &Rect) -> (landing: bool)
        ensures
            landing == lands_on(self.sprites(), self.machine(), *rect),
    {
        self.bounding_box().intersects(rect) && (self.position().y as i32) < rect.y
    }

    /// Puts the character down on the surface at height `y`.
    pub fn land_on(&mut self, y: i16)
        ensures
            final(self).machine() == landed_on(old(self).sprites(), old(self).machine(), y),
            final(self).sprites() == old(self).sprites(),
    {
        let target: i64 = y as i64 - self.bounding_box().height as i64;
        let on: i16 = if target < i16::MIN as i64 {
            i16::MIN
        } else if target > i16::MAX as i64 {
            i16::MAX
        } else {
            target as i16
        };
        self.state = self.state.land(on);
    }

    /// Starts the character running, or pushes it to the right.
    pub fn run(&mut self)
        ensures
            final(self).machine() == old(self).machine().step(Event::Run),
            final(self).sprites() == old(self).sprites(),
    {
        self.state = self.state.run();
    }

    /// Knocks the character over.
    pub fn kill(&mut self)
        ensures
            final(self).machine() == old(self).machine().step(Event::Kill),
            final(self).sprites() == old(self).sprites(),
    {
        self.state = self.state.kill();
    }

    /// Pushes the character to the left.
    pub fn moonwalk(&mut self)
        ensures
            final(self).machine() == old(self).machine().step(Event::Moonwalk),
            final(self).sprites() == old(self).sprites(),
    {
        self.state = self.state.moonwalk();
    }

    /// Lets the character take off.
    pub fn jump(&mut self)
        ensures
            final(self).machine() == old(self).machine().step(Event::Jump),
            final(self).sprites() == old(self).sprites(),
    {
        self.state = self.state.jump();
    }

    /// Lets the character drop into a slide.
    pub fn slide(&mut self)
        ensures
            final(self).machine() == old(self).machine().step(Event::Slide),
            final(self).sprites() == old(self).sprites(),
    {
        self.state = self.state.slide();
    }

    /// Lets one simulation step pass.
    pub fn update(&mut self)
        ensures
            final(self).machine() == old(self).machine().step(Event::Update),
            final(self).sprites() == old(self).sprites(),
    {
        self.state = self.state.update();
    }
}

} // verus!
