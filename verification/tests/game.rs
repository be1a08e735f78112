use futures::channel::mpsc::unbounded;
use walk_the_dog::character::{Platform, RedHatBoy};
use walk_the_dog::game::{AlreadyLoaded, Image, WalkTheDog, WalkTheDogGame};
use walk_the_dog::game_loop::{Game, GameLoop};
use walk_the_dog::geometry::{Dimen, Point, Rect, Vector};
use walk_the_dog::input::{KeyPress, KeyState};
use walk_the_dog::machine::{RedHatBoyStateMachine, State};
use walk_the_dog::physics::GameObject;
use walk_the_dog::sheet::{Blit, Cell, LookupError, Sheet, SheetRect};

fn body(frame: u8, x: i16, y: i16, vx: i16, vy: i16) -> GameObject {
    GameObject { frame, position: Point { x, y }, velocity: Vector { x: vx, y: vy } }
}

fn cell(frame: (u16, u16, u16, u16), trimmed: (u16, u16, u16, u16)) -> Cell {
    Cell {
        frame: SheetRect { x: frame.0, y: frame.1, w: frame.2, h: frame.3 },
        sprite_source_size: SheetRect { x: trimmed.0, y: trimmed.1, w: trimmed.2, h: trimmed.3 },
    }
}

/// Every picture of every animation is 40 wide and 100 high, untrimmed.
fn plain_sheet() -> Sheet {
    let mut sheet = Sheet::new();
    let counts: [(&str, u16); 5] = [("Idle", 10), ("Run", 8), ("Jump", 12), ("Slide", 5), ("Dead", 10)];
    for (name, count) in counts {
        for index in 1..=count {
            sheet.insert(
                format!("{} ({}).png", name, index),
                cell((index * 40, 0, 40, 100), (0, 0, 40, 100)),
            );
        }
    }
    sheet
}

fn keys(held: &[&str]) -> KeyState {
    let mut state = KeyState::new();
    for code in held {
        state.set_pressed(code);
    }
    state
}

fn game_with(sheet: Sheet, rock: Image, platforms: Vec<Platform>) -> WalkTheDogGame {
    let background = Image::new(Point { x: 0, y: 0 }, Dimen { width: 1000, height: 600 });
    WalkTheDogGame::new(background, rock, RedHatBoy::new(sheet), platforms)
}

fn far_rock() -> Image {
    Image::new(Point { x: 5000, y: 546 }, Dimen { width: 90, height: 54 })
}

fn machine_of(game: &WalkTheDogGame) -> RedHatBoyStateMachine {
    game.rhb().state()
}

#[test]
fn image_box_and_movement() {
    let mut image = Image::new(Point { x: 200, y: 546 }, Dimen { width: 90, height: 54 });
    assert_eq!(image.bounding_box(), Rect { x: 200, y: 546, width: 90, height: 54 });
    image.move_horizontally(-4);
    assert_eq!(image.position, Point { x: 196, y: 546 });
    assert_eq!(image.bounding_box(), Rect { x: 196, y: 546, width: 90, height: 54 });
    let mut edge = Image::new(Point { x: i16::MIN, y: 0 }, Dimen { width: 1, height: 1 });
    edge.move_horizontally(-1);
    assert_eq!(edge.position.x, i16::MAX);
}

#[test]
fn platform_box_sits_at_its_position() {
    let platform = Platform {
        position: Point { x: 220, y: 350 },
        bounding_box: Rect { x: 0, y: 0, width: 384, height: 90 },
    };
    assert_eq!(platform.bounding_box(), Rect { x: 220, y: 350, width: 384, height: 90 });
}

#[test]
fn character_starts_idle_with_its_five_animations() {
    let boy = RedHatBoy::new(plain_sheet());
    assert_eq!(boy.state(), RedHatBoyStateMachine::Idle(body(0, 0, 485, 0, 0)));
    assert_eq!(boy.animation_name(), "Idle");
    assert_eq!(boy.frame(), 0);
    assert_eq!(*boy.position(), Point { x: 0, y: 485 });
    for name in ["Idle", "Run", "Jump", "Slide", "Dead"] {
        assert!(boy.sheet().knows(name));
    }
    assert!(!boy.sheet().knows("Walk"));
    assert_eq!(boy.bounding_box(), Rect { x: 0, y: 485, width: 40, height: 100 });
}

#[test]
fn character_box_follows_picture_and_position() {
    let mut sheet = Sheet::new();
    sheet.insert("Idle (1).png".to_string(), cell((0, 0, 10, 10), (5, 5, 30, 90)));
    sheet.insert("Idle (2).png".to_string(), cell((10, 0, 12, 14), (8, 1, 31, 95)));
    let mut boy = RedHatBoy::new(sheet);
    assert_eq!(boy.bounding_box(), Rect { x: 0, y: 485, width: 30, height: 90 });
    boy.update();
    boy.update();
    assert_eq!(boy.bounding_box(), Rect { x: 0, y: 485, width: 30, height: 90 });
    boy.update();
    assert_eq!(boy.frame(), 3);
    assert_eq!(boy.bounding_box(), Rect { x: 3, y: 481, width: 31, height: 95 });
    assert_eq!(
        boy.draw(),
        Ok(Blit {
            source: Rect { x: 10, y: 0, width: 12, height: 14 },
            destination: Rect { x: 3, y: 481, width: 12, height: 14 },
        })
    );
    boy.update();
    boy.update();
    boy.update();
    assert_eq!(boy.frame(), 6);
    assert_eq!(boy.bounding_box(), Rect { x: 0, y: 485, width: 0, height: 0 });
    assert_eq!(boy.draw(), Err(LookupError { cell: "Idle (3).png".to_string() }));
}

#[test]
fn character_inputs_reach_the_machine() {
    let mut boy = RedHatBoy::new(plain_sheet());
    boy.run();
    assert_eq!(boy.state(), RedHatBoyStateMachine::Running(body(0, 0, 485, 4, 0)));
    boy.moonwalk();
    assert_eq!(boy.state(), RedHatBoyStateMachine::Running(body(0, 0, 485, 0, 0)));
    boy.slide();
    assert_eq!(boy.state(), RedHatBoyStateMachine::Sliding(body(0, 0, 500, 0, 0)));
    assert_eq!(boy.animation_name(), "Slide");
    let mut other = RedHatBoy::new(plain_sheet());
    other.run();
    other.jump();
    assert_eq!(other.state(), RedHatBoyStateMachine::Jumping(body(0, 0, 485, 4, -25)));
    other.update();
    assert_eq!(other.state(), RedHatBoyStateMachine::Jumping(body(1, 4, 461, 4, -24)));
    other.kill();
    assert_eq!(other.state(), RedHatBoyStateMachine::Crashing(body(0, 4, 461, 0, 0)));
    assert_eq!(other.animation_name(), "Dead");
}

#[test]
fn land_on_aligns_the_bottom_of_the_box() {
    let mut boy = RedHatBoy::new(plain_sheet());
    boy.run();
    boy.jump();
    boy.update();
    boy.land_on(350);
    assert_eq!(boy.state(), RedHatBoyStateMachine::Running(body(0, 4, 250, 4, 0)));
    assert_eq!(boy.bounding_box(), Rect { x: 4, y: 250, width: 40, height: 100 });
    boy.land_on(i16::MIN);
    assert_eq!(boy.position().y, i16::MIN);
    let mut bare = RedHatBoy::new(Sheet::new());
    bare.land_on(600);
    assert_eq!(bare.state(), RedHatBoyStateMachine::Idle(body(0, 0, 600, 0, 0)));
}

#[test]
fn landing_needs_the_box_below_the_floor() {
    let mut boy = RedHatBoy::new(plain_sheet());
    assert!(!boy.landing());
    boy.land_on(601);
    assert_eq!(boy.position().y, 501);
    assert!(boy.landing());
    boy.land_on(600);
    assert_eq!(boy.position().y, 500);
    assert!(!boy.landing());
}

#[test]
fn landing_on_needs_overlap_from_above() {
    let boy = RedHatBoy::new(plain_sheet());
    assert!(boy.collides_with(&Rect { x: 20, y: 500, width: 100, height: 50 }));
    assert!(boy.landing_on(&Rect { x: 20, y: 500, width: 100, height: 50 }));
    assert!(boy.collides_with(&Rect { x: 20, y: 485, width: 100, height: 50 }));
    assert!(!boy.landing_on(&Rect { x: 20, y: 485, width: 100, height: 50 }));
    assert!(boy.collides_with(&Rect { x: 20, y: 400, width: 100, height: 100 }));
    assert!(!boy.landing_on(&Rect { x: 20, y: 400, width: 100, height: 100 }));
    assert!(!boy.collides_with(&Rect { x: 40, y: 500, width: 100, height: 50 }));
    assert!(!boy.landing_on(&Rect { x: 40, y: 500, width: 100, height: 50 }));
    assert!(!boy.collides_with(&Rect { x: 20, y: 585, width: 100, height: 50 }));
    assert!(!boy.landing_on(&Rect { x: 20, y: 585, width: 100, height: 50 }));
}

#[test]
fn platform_from_above_is_landed_on() {
    let mut boy = RedHatBoy::new(plain_sheet());
    boy.run();
    boy.jump();
    boy.update();
    let platform = Platform {
        position: Point { x: 0, y: 500 },
        bounding_box: Rect { x: 0, y: 0, width: 384, height: 90 },
    };
    boy.check_platform_collisions(&platform);
    assert_eq!(boy.state(), RedHatBoyStateMachine::Running(body(0, 4, 400, 4, 0)));
    boy.check_platform_collisions(&platform);
    assert_eq!(boy.state(), RedHatBoyStateMachine::Running(body(0, 4, 400, 4, 0)));
}

#[test]
fn platform_from_the_side_kills() {
    let mut boy = RedHatBoy::new(plain_sheet());
    boy.run();
    let platform = Platform {
        position: Point { x: 30, y: 450 },
        bounding_box: Rect { x: 0, y: 0, width: 384, height: 90 },
    };
    boy.check_platform_collisions(&platform);
    assert_eq!(boy.state(), RedHatBoyStateMachine::Crashing(body(0, 0, 485, 0, 0)));
    let mut idle = RedHatBoy::new(plain_sheet());
    idle.check_platform_collisions(&platform);
    assert_eq!(idle.state(), RedHatBoyStateMachine::Idle(body(0, 0, 485, 0, 0)));
}

#[test]
fn platform_out_of_reach_changes_nothing() {
    let mut boy = RedHatBoy::new(plain_sheet());
    boy.run();
    let platform = Platform {
        position: Point { x: 220, y: 350 },
        bounding_box: Rect { x: 0, y: 0, width: 384, height: 90 },
    };
    boy.check_platform_collisions(&platform);
    assert_eq!(boy.state(), RedHatBoyStateMachine::Running(body(0, 0, 485, 4, 0)));
}

#[test]
fn new_game_holds_its_scenery() {
    let platform = Platform {
        position: Point { x: 220, y: 350 },
        bounding_box: Rect { x: 0, y: 0, width: 384, height: 90 },
    };
    let game = game_with(plain_sheet(), far_rock(), vec![platform]);
    assert_eq!(*game.background(), Image::new(Point { x: 0, y: 0 }, Dimen { width: 1000, height: 600 }));
    assert_eq!(*game.rock(), far_rock());
    assert_eq!(*game.platforms(), vec![platform]);
    assert_eq!(game.velocity(), 0);
    assert_eq!(machine_of(&game), RedHatBoyStateMachine::Idle(body(0, 0, 485, 0, 0)));
}

#[test]
fn step_without_keys_only_animates() {
    let mut game = game_with(plain_sheet(), far_rock(), vec![]);
    game.update(&keys(&[]));
    assert_eq!(machine_of(&game), RedHatBoyStateMachine::Idle(body(1, 0, 485, 0, 0)));
    assert_eq!(game.velocity(), 0);
    assert_eq!(game.background().position, Point { x: 0, y: 0 });
}

#[test]
fn run_key_starts_the_run_and_the_scrolling() {
    let mut game = game_with(plain_sheet(), far_rock(), vec![]);
    game.update(&keys(&["ArrowRight"]));
    assert_eq!(machine_of(&game), RedHatBoyStateMachine::Running(body(1, 4, 485, 4, 0)));
    assert_eq!(game.velocity(), -4);
    assert_eq!(game.background().position, Point { x: -4, y: 0 });
    game.update(&keys(&[]));
    assert_eq!(machine_of(&game), RedHatBoyStateMachine::Running(body(2, 8, 485, 4, 0)));
    assert_eq!(game.velocity(), -4);
    assert_eq!(game.background().position, Point { x: -8, y: 0 });
}

#[test]
fn keys_act_in_order_within_one_step() {
    let mut game = game_with(plain_sheet(), far_rock(), vec![]);
    game.update(&keys(&["ArrowRight", "ArrowLeft", "Space", "ArrowDown"]));
    assert_eq!(machine_of(&game), RedHatBoyStateMachine::Jumping(body(1, 0, 461, 0, -24)));
    let mut slider = game_with(plain_sheet(), far_rock(), vec![]);
    slider.update(&keys(&["ArrowRight", "ArrowDown"]));
    assert_eq!(machine_of(&slider), RedHatBoyStateMachine::Sliding(body(1, 4, 500, 4, 0)));
}

#[test]
fn rock_kills_the_runner() {
    let rock = Image::new(Point { x: 43, y: 546 }, Dimen { width: 90, height: 54 });
    let mut game = game_with(plain_sheet(), rock, vec![]);
    game.update(&keys(&["ArrowRight"]));
    assert_eq!(machine_of(&game), RedHatBoyStateMachine::Crashing(body(0, 4, 485, 0, 0)));
    for _ in 0..29 {
        game.update(&keys(&["ArrowRight", "Space"]));
    }
    assert_eq!(machine_of(&game), RedHatBoyStateMachine::GameOver(body(29, 4, 485, 0, 0)));
    game.update(&keys(&["ArrowRight", "Space"]));
    assert_eq!(machine_of(&game), RedHatBoyStateMachine::GameOver(body(29, 4, 485, 0, 0)));
}

#[test]
fn floor_catches_the_jumper_by_its_feet() {
    let mut game = game_with(plain_sheet(), far_rock(), vec![]);
    game.update(&keys(&["ArrowRight", "Space"]));
    assert_eq!(machine_of(&game), RedHatBoyStateMachine::Jumping(body(1, 4, 461, 4, -24)));
    let mut steps = 1;
    while machine_of(&game).state() == State::Jumping {
        game.update(&keys(&[]));
        steps += 1;
        assert!(steps < 100);
    }
    assert_eq!(steps, 51);
    assert_eq!(machine_of(&game), RedHatBoyStateMachine::Running(body(0, 204, 500, 4, 0)));
}

#[test]
fn jumper_lands_on_a_platform_below() {
    let platform = Platform {
        position: Point { x: 100, y: 400 },
        bounding_box: Rect { x: 0, y: 0, width: 384, height: 90 },
    };
    let mut game = game_with(plain_sheet(), far_rock(), vec![platform]);
    game.update(&keys(&["ArrowRight", "Space"]));
    let mut steps = 1;
    while machine_of(&game).state() == State::Jumping {
        game.update(&keys(&[]));
        steps += 1;
        assert!(steps < 100);
    }
    assert_eq!(steps, 40);
    assert_eq!(machine_of(&game), RedHatBoyStateMachine::Running(body(0, 160, 300, 4, 0)));
}

#[test]
fn end_to_end_run() {
    let platform = Platform {
        position: Point { x: 220, y: 350 },
        bounding_box: Rect { x: 0, y: 0, width: 384, height: 90 },
    };
    let rock = Image::new(Point { x: 200, y: 546 }, Dimen { width: 90, height: 54 });
    let mut game = game_with(Sheet::new(), rock, vec![platform]);
    let (sender, mut receiver) = unbounded::<KeyPress>();
    let mut keystate = KeyState::new();
    let mut game_loop = GameLoop::new(0);
    sender.unbounded_send(KeyPress::KeyDown("ArrowRight".to_string())).unwrap();
    let steps = game_loop.advance(24 * 1000 + 1, &mut game, &mut keystate, &mut receiver);
    assert_eq!(steps, 24);
    assert!(keystate.is_pressed("ArrowRight"));
    let machine = machine_of(&game);
    assert_eq!(machine.state(), State::Running);
    assert_eq!(machine.game_object().position.x, 24 * 4);
    assert_eq!(machine.game_object().frame, 24 % (8 * 3));
    assert_eq!(machine, RedHatBoyStateMachine::Running(body(0, 96, 485, 4, 0)));
    assert_eq!(game.background().position.x, -96);
}

#[test]
fn end_to_end_run_step_by_step() {
    let mut machine = RedHatBoyStateMachine::new();
    machine = machine.run();
    for _ in 0..24 {
        machine = machine.run().update();
    }
    assert_eq!(machine, RedHatBoyStateMachine::Running(body(0, 96, 485, 4, 0)));
}

#[test]
fn game_loads_once() {
    let mut game = WalkTheDog::new();
    assert!(game.is_loading());
    assert!(game.game().is_none());
    game.update(&keys(&["ArrowRight"]));
    assert!(game.is_loading());
    assert_eq!(game.initialize(game_with(plain_sheet(), far_rock(), vec![])), Ok(()));
    assert!(!game.is_loading());
    game.update(&keys(&["ArrowRight"]));
    assert_eq!(
        game.game().map(machine_of),
        Some(RedHatBoyStateMachine::Running(body(1, 4, 485, 4, 0)))
    );
    assert_eq!(game.initialize(game_with(Sheet::new(), far_rock(), vec![])), Err(AlreadyLoaded));
    assert_eq!(
        game.game().map(machine_of),
        Some(RedHatBoyStateMachine::Running(body(1, 4, 485, 4, 0)))
    );
}
