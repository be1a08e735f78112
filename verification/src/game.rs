//! The game: the character, the boxes it can run into, and the rule that
//! turns the held keys and one tick of the clock into the next scene.

use vstd::prelude::*;
use crate::character::{after_platform, below_floor, hit_box, landed_on, Platform, RedHatBoy};
use crate::game_loop::Game;
use crate::geometry::{Dimen, Point, Rect};
use crate::input::KeyState;
use crate::machine::{Event, RedHatBoyStateMachine};
use crate::physics::{FLOOR, RUN_SPEED};
use crate::sheet::SpriteSheet;

verus! {

/// The key that makes the character run.
pub const RUN_KEY: &'static str = "ArrowRight";

/// The key that pushes the character to the left.
pub const MOONWALK_KEY: &'static str = "ArrowLeft";

/// The key that makes the character jump.
pub const JUMP_KEY: &'static str = "Space";

/// The key that makes the character slide.
pub const SLIDE_KEY: &'static str = "ArrowDown";

/// A picture at a place in the world.
#[derive(Debug, Clone, Copy, PartialEq, Eq, Structural)]
pub struct Image {
    /// The top-left corner.
    pub position: Point,
    /// The size of the picture.
    pub size: Dimen,
}

impl Image {
    /// The box that the picture fills.
    pub open spec fn bounds(self) -> Rect {
        Rect {
            x: self.position.x as i32,
            y: self.position.y as i32,
            width: self.size.width as i32,
            height: self.size.height as i32,
        }
    }

    /// A picture of the given size at `position`.
    pub fn new(position: Point, size: Dimen) -> (image: Image)
        ensures
            image == (Image { position, size }),
    {
        Image { position, size }
    }

    /// The box that the picture fills.
    pub fn bounding_box(&self) -> (bounds: Rect)
        ensures
            bounds == self.bounds(),
    {
        Rect {
            x: self.position.x as i32,
            y: self.position.y as i32,
            width: self.size.width as i32,
            height: self.size.height as i32,
        }
    }

    /// Moves the picture sideways, wrapping around at the ends of the
    /// 16-bit range.
    pub fn move_horizontally(&mut self, distance: i16)
        ensures
            *final(self) == (Image {
                position: Point {
                    x: old(self).position.x.wrapping_add(distance),
                    y: old(self).position.y,
                },
                size: old(self).size,
            }),
    {
        self.position.x = self.position.x.wrapping_add(distance);
    }
}

/// The machine after the keys that are held have had their effect: run,
/// moonwalk, jump and slide, in this order, each where its key is held.
pub open spec fn after_keys(machine: RedHatBoyStateMachine, keys: Set<Seq<char>>)
    -> RedHatBoyStateMachine {
    let machine = if keys.contains(RUN_KEY@) {
        machine.step(Event::Run)
    } else {
        machine
    };
    let machine = if keys.contains(MOONWALK_KEY@) {
        machine.step(Event::Moonwalk)
    } else {
        machine
    };
    let machine = if keys.contains(JUMP_KEY@) {
        machine.step(Event::Jump)
    } else {
        machine
    };
    if keys.contains(SLIDE_KEY@) {
        machine.step(Event::Slide)
    } else {
        machine
    }
}

/// The machine after the character has met each of the platforms, in their
/// order.
pub open spec fn after_platforms(
    sprites: &SpriteSheet,
    machine: RedHatBoyStateMachine,
    platforms: Seq<Platform>,
) -> RedHatBoyStateMachine
    decreases platforms.len(),
{
    if platforms.len() == 0 {
        machine
    } else {
        after_platform(
            sprites,
            after_platforms(sprites, machine, platforms.drop_last()),
            platforms.last(),
        )
    }
}

/// The machine after one simulation step of the game: the held keys act,
/// one step passes, the character meets the platforms, the rock kills it if
/// it touches it, and the floor of the world catches it if it has sunk
/// below it.
pub open spec fn after_step(
    sprites: &SpriteSheet,
    machine: RedHatBoyStateMachine,
    keys: Set<Seq<char>>,
    platforms: Seq<Platform>,
    rock: Rect,
) -> RedHatBoyStateMachine {
    let machine = after_keys(machine, keys).step(Event::Update);
    let machine = after_platforms(sprites, machine, platforms);
    let machine = if hit_box(sprites, machine).overlaps(rock) {
        machine.step(Event::Kill)
    } else {
        machine
    };
    if below_floor(sprites, machine) {
        landed_on(sprites, machine, FLOOR)
    } else {
        machine
    }
}

/// The game while it runs.
pub struct WalkTheDogGame {
    background: Image,
    rock: Image,
    rhb: RedHatBoy,
    platforms: Vec<Platform>,
    velocity: i16,
}

impl WalkTheDogGame {
    /// The backdrop.
    pub closed spec fn backdrop(&self) -> Image {
        self.background
    }

    /// The rock.
    pub closed spec fn stone(&self) -> Image {
        self.rock
    }

    /// The character.
    pub closed spec fn boy(&self) -> &RedHatBoy {
        &self.rhb
    }

    /// The platforms.
    pub closed spec fn ledges(&self) -> Seq<Platform> {
        self.platforms@
    }

    /// How far the backdrop moves with each step.
    pub closed spec fn scroll(&self) -> i16 {
        self.velocity
    }

    /// A game with the given scenery, the backdrop at rest.
    pub fn new(background: Image, rock: Image, rhb: RedHatBoy, platforms: Vec<Platform>) -> (game:
        WalkTheDogGame)
        ensures
            game.backdrop() == background,
            game.stone() == rock,
            *game.boy() == rhb,
            game.ledges() == platforms@,
            game.scroll() == 0,
    {
        WalkTheDogGame { background, rock, rhb, platforms, velocity: 0 }
    }

    /// The backdrop.
    pub fn background(&self) -> (image: &Image)
        ensures
            *image == self.backdrop(),
    {
        &self.background
    }

    /// The rock.
    pub fn rock(&self) -> (image: &Image)
        ensures
            *image == self.stone(),
    {
        &self.rock
    }

    /// The character.
    pub fn rhb(&self) -> (boy: &RedHatBoy)
        ensures
            boy == self.boy(),
    {
        &self.rhb
    }

    /// The platforms.
    pub fn platforms(&self) -> (platforms: &Vec<Platform>)
        ensures
            platforms@ == self.ledges(),
    {
        &self.platforms
    }

    /// How far the backdrop moves with each step.
    pub fn velocity(&self) -> (velocity: i16)
        ensures
            velocity == self.scroll(),
    {
        self.velocity
    }
}

impl Game for WalkTheDogGame {
    /// Whether this is the game one simulation step after `before`, with
    /// the keys `keys` held. The character goes through the step as
    /// `after_step` says; once the run key has been held the backdrop
    /// scrolls to the left at running speed; the rock and the platforms
    /// stay where they are.
    open spec fn follows(&self, before: &WalkTheDogGame, keys: Set<Seq<char>>) -> bool {
        &&& self.boy().machine() == after_step(
            before.boy().sprites(),
            before.boy().machine(),
            keys,
            before.ledges(),
            before.stone().bounds(),
        )
        &&& self.boy().sprites() == before.boy().sprites()
        &&& self.scroll() == if keys.contains(RUN_KEY@) {
            (-RUN_SPEED) as i16
        } else {
            before.scroll()
        }
        &&& self.backdrop() == (Image {
            position: Point {
                x: before.backdrop().position.x.wrapping_add(self.scroll()),
                y: before.backdrop().position.y,
            },
            size: before.backdrop().size,
        })
        &&& self.stone() == before.stone()
        &&& self.ledges() == before.ledges()
    }

    /// Simulates one step.
    fn update(&mut self, keystate: &KeyState) {
        if keystate.is_pressed(RUN_KEY) {
            self.rhb.run();
            self.velocity = -RUN_SPEED;
        }
        if keystate.is_pressed(MOONWALK_KEY) {
            self.rhb.moonwalk();
        }
        if keystate.is_pressed(JUMP_KEY) {
            self.rhb.jump();
        }
        if keystate.is_pressed(SLIDE_KEY) {
            self.rhb.slide();
        }
        self.rhb.update();

        let ghost moved = self.rhb.machine();
        let mut met: usize = 0;
        while met < self.platforms.len()
            invariant
                met <= self.platforms.len(),
                self.platforms@ == old(self).platforms@,
                self.rock == old(self).rock,
                self.background == old(self).background,
                self.rhb.sprites() == old(self).rhb.sprites(),
                self.velocity == if keystate@.contains(RUN_KEY@) {
                    (-RUN_SPEED) as i16
                } else {
                    old(self).velocity
                },
                self.rhb.machine() == after_platforms(
                    self.rhb.sprites(),
                    moved,
                    self.platforms@.take(met as int),
                ),
            decreases self.platforms.len() - met,
        {
            let platform = self.platforms[met];
            self.rhb.check_platform_collisions(&platform);
            proof {
                assert(self.platforms@.take(met + 1).drop_last() =~= self.platforms@.take(
                    met as int,
                ));
            }
            met += 1;
        }
        proof {
            assert(self.platforms@.take(met as int) =~= self.platforms@);
        }

        if self.rhb.collides_with(&self.rock.bounding_box()) {
            self.rhb.kill();
        }
        if self.rhb.landing() {
            self.rhb.land_on(FLOOR);
        }
        self.background.move_horizontally(self.velocity);
    }
}

/// A game that first has to be loaded.
pub enum WalkTheDog {
    Loading,
    Loaded(WalkTheDogGame),
}

/// The game was asked to load a second time.
#[derive(Debug, Clone, Copy, PartialEq, Eq, Structural)]
pub struct AlreadyLoaded;

impl WalkTheDog {
    /// A game that has not been loaded yet.
    pub fn new() -> (game: WalkTheDog)
        ensures
            game is Loading,
    {
        WalkTheDog::Loading
    }

    /// Whether the game still has to be loaded.
    pub fn is_loading(&self) -> (loading: bool)
        ensures
            loading == (self is Loading),
    {
        match self {
            WalkTheDog::Loading => true,
            WalkTheDog::Loaded(_) => false,
        }
    }

    /// Starts the game with what was loaded for it. A game can be loaded
    /// once; a second time is refused and changes nothing.
    pub fn initialize(&mut self, game: WalkTheDogGame) -> (done: Result<(), AlreadyLoaded>)
        ensures
            done is Ok <==> *old(self) is Loading,
            done is Ok ==> *final(self) == WalkTheDog::Loaded(game),
            done is Err ==> *final(self) == *old(self),
    {
        match self {
            WalkTheDog::Loading => {
                *self = WalkTheDog::Loaded(game);
                Ok(())
            },
            WalkTheDog::Loaded(_) => Err(AlreadyLoaded),
        }
    }

    /// The running game, once it is loaded.
    pub fn game(&self) -> (game: Option<&WalkTheDogGame>)
        ensures
            match self {
                WalkTheDog::Loading => game is None,
                WalkTheDog::Loaded(loaded) => game == Some(loaded),
            },
    {
        match self {
            WalkTheDog::Loading => None,
            WalkTheDog::Loaded(game) => Some(game),
        }
    }
}

impl Game for WalkTheDog {
    /// A game that is not loaded yet stays as it is; a loaded game takes
    /// its step.
    open spec fn follows(&self, before: &Self, keys: Set<Seq<char>>) -> bool {
        match *before {
            WalkTheDog::Loading => *self is Loading,
            WalkTheDog::Loaded(game) => {
                &&& *self is Loaded
                &&& self->Loaded_0.follows(&game, keys)
            },
        }
    }

    /// Simulates one step of the loaded game.
    fn update(&mut self, keystate: &KeyState) {
        match self {
            WalkTheDog::Loaded(game) => game.update(keystate),
            _ => {},
        }
    }
}

} // verus!
