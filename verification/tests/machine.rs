use walk_the_dog::geometry::{Point, Vector};
use walk_the_dog::machine::{Event, RedHatBoyStateMachine, State};
use walk_the_dog::physics::{
    GameObject, FLOOR, GAME_OVER_FRAMES, JUMP_IMPULSE, RUN_SPEED, SLIDE_OFFSET, SPAWN_X, SPAWN_Y,
};

fn body(frame: u8, x: i16, y: i16, vx: i16, vy: i16) -> GameObject {
    GameObject { frame, position: Point { x, y }, velocity: Vector { x: vx, y: vy } }
}

fn running() -> RedHatBoyStateMachine {
    RedHatBoyStateMachine::new().run()
}

fn updated(mut machine: RedHatBoyStateMachine, steps: u32) -> RedHatBoyStateMachine {
    for _ in 0..steps {
        machine = machine.update();
    }
    machine
}

fn one_of_each() -> Vec<RedHatBoyStateMachine> {
    vec![
        RedHatBoyStateMachine::Idle(body(7, 10, 485, 0, 0)),
        RedHatBoyStateMachine::Running(body(5, 10, 485, 4, 0)),
        RedHatBoyStateMachine::Jumping(body(9, 10, 300, -4, -3)),
        RedHatBoyStateMachine::Sliding(body(3, 10, 500, 4, 0)),
        RedHatBoyStateMachine::Crashing(body(11, 10, 485, 0, 0)),
        RedHatBoyStateMachine::GameOver(body(29, 10, 485, 0, 0)),
    ]
}

#[test]
fn spawns_idle_at_rest() {
    let machine = RedHatBoyStateMachine::new();
    assert_eq!(machine, RedHatBoyStateMachine::Idle(body(0, SPAWN_X, SPAWN_Y, 0, 0)));
    assert_eq!(machine.state(), State::Idle);
    assert_eq!(*machine.game_object(), body(0, 0, 485, 0, 0));
}

#[test]
fn frame_counts_and_animations() {
    let expected: [(u8, &str); 6] =
        [(10, "Idle"), (8, "Run"), (12, "Jump"), (5, "Slide"), (10, "Dead"), (29, "Dead")];
    for (machine, (count, name)) in one_of_each().into_iter().zip(expected) {
        assert_eq!(machine.frame_count(), count);
        assert_eq!(machine.animation(), name);
    }
}

#[test]
fn unlisted_events_change_nothing() {
    for machine in one_of_each() {
        let state = machine.state();
        if state != State::Idle && state != State::Running {
            assert_eq!(machine.run(), machine);
            assert_eq!(machine.apply(Event::Run), machine);
        }
        if state != State::Running {
            assert_eq!(machine.moonwalk(), machine);
            assert_eq!(machine.jump(), machine);
            assert_eq!(machine.slide(), machine);
            assert_eq!(machine.apply(Event::Moonwalk), machine);
            assert_eq!(machine.apply(Event::Jump), machine);
            assert_eq!(machine.apply(Event::Slide), machine);
        }
        if state != State::Running && state != State::Jumping {
            assert_eq!(machine.kill(), machine);
            assert_eq!(machine.apply(Event::Kill), machine);
        }
    }
}

#[test]
fn apply_agrees_with_the_methods() {
    for machine in one_of_each() {
        assert_eq!(machine.apply(Event::Run), machine.run());
        assert_eq!(machine.apply(Event::Moonwalk), machine.moonwalk());
        assert_eq!(machine.apply(Event::Jump), machine.jump());
        assert_eq!(machine.apply(Event::Slide), machine.slide());
        assert_eq!(machine.apply(Event::Kill), machine.kill());
        assert_eq!(machine.apply(Event::Land(123)), machine.land(123));
        assert_eq!(machine.apply(Event::Update), machine.update());
    }
}

#[test]
fn run_starts_the_run_at_full_speed() {
    let idle = RedHatBoyStateMachine::Idle(body(17, 3, 485, 0, 0));
    assert_eq!(idle.run(), RedHatBoyStateMachine::Running(body(0, 3, 485, 4, 0)));
}

#[test]
fn repeated_run_never_exceeds_run_speed() {
    let mut machine = RedHatBoyStateMachine::Running(body(5, 0, 485, -4, 0));
    let mut speeds = Vec::new();
    for _ in 0..6 {
        machine = machine.run();
        speeds.push(machine.game_object().velocity.x);
        assert!(machine.game_object().velocity.x <= RUN_SPEED);
        assert_eq!(machine.game_object().frame, 5);
    }
    assert_eq!(speeds, vec![0, 4, 4, 4, 4, 4]);
}

#[test]
fn repeated_moonwalk_never_falls_below_minus_run_speed() {
    let mut machine = running();
    let mut speeds = Vec::new();
    for _ in 0..6 {
        machine = machine.moonwalk();
        speeds.push(machine.game_object().velocity.x);
        assert!(machine.game_object().velocity.x >= -RUN_SPEED);
    }
    assert_eq!(speeds, vec![0, -4, -4, -4, -4, -4]);
    assert_eq!(machine.state(), State::Running);
}

#[test]
fn pushes_clamp_far_off_velocities() {
    let fast = RedHatBoyStateMachine::Running(body(0, 0, 0, i16::MAX, 0));
    assert_eq!(fast.run().game_object().velocity.x, 4);
    assert_eq!(fast.moonwalk().game_object().velocity.x, i16::MAX - 4);
    let back = RedHatBoyStateMachine::Running(body(0, 0, 0, i16::MIN, 0));
    assert_eq!(back.moonwalk().game_object().velocity.x, -4);
    assert_eq!(back.run().game_object().velocity.x, i16::MIN + 4);
}

#[test]
fn idle_animation_goes_round() {
    let start = RedHatBoyStateMachine::Idle(body(7, 10, 485, 0, 0));
    let mut machine = start;
    for step in 1..=30u32 {
        machine = machine.update();
        assert_eq!(machine.state(), State::Idle);
        assert!(machine.game_object().frame < 30);
        assert_eq!(u32::from(machine.game_object().frame), (7 + step) % 30);
    }
    assert_eq!(machine, start);
}

#[test]
fn running_animation_goes_round() {
    let mut machine = RedHatBoyStateMachine::Running(body(23, 0, 485, 4, 0));
    machine = machine.update();
    assert_eq!(machine, RedHatBoyStateMachine::Running(body(0, 4, 485, 4, 0)));
    machine = updated(machine, 23);
    assert_eq!(machine, RedHatBoyStateMachine::Running(body(23, 96, 485, 4, 0)));
}

#[test]
fn jumping_animation_goes_round_in_the_air() {
    let start = RedHatBoyStateMachine::Jumping(body(30, 0, -20000, 0, 20));
    let machine = updated(start, 36);
    assert_eq!(machine, RedHatBoyStateMachine::Jumping(body(30, 0, -20000 + 36 * 20, 0, 20)));
}

#[test]
fn frame_counter_of_a_byte_wraps_to_zero() {
    let odd = RedHatBoyStateMachine::Idle(body(255, 0, 0, 0, 0));
    assert_eq!(odd.update().game_object().frame, 0);
    let object = body(255, 0, 0, 0, 0);
    assert_eq!(object.update(200).frame, 0);
    assert_eq!(body(254, 0, 0, 0, 0).update(200).frame, 255);
    assert_eq!(body(0, 0, 0, 0, 0).update(0).frame, 0);
}

#[test]
fn positions_wrap_around() {
    let edge = RedHatBoyStateMachine::Running(body(0, i16::MAX - 1, 0, 4, 0));
    assert_eq!(edge.update().game_object().position.x, i16::MIN + 2);
    let deep = RedHatBoyStateMachine::Running(body(0, 0, i16::MAX - 10, 0, 0));
    let slid = deep.slide();
    assert_eq!(slid.game_object().position.y, i16::MIN + 4);
    assert_eq!(updated(slid, 14).game_object().position.y, i16::MAX - 10);
}

#[test]
fn jump_takes_off() {
    let machine = RedHatBoyStateMachine::Running(body(13, 40, 485, 4, 0)).jump();
    assert_eq!(machine, RedHatBoyStateMachine::Jumping(body(0, 40, 485, 4, -25)));
    assert_eq!(machine.game_object().velocity.y, JUMP_IMPULSE);
}

#[test]
fn jump_rises_then_falls_to_the_floor() {
    let mut machine = running().jump();
    machine = machine.update();
    assert_eq!(machine, RedHatBoyStateMachine::Jumping(body(1, 4, 461, 4, -24)));
    machine = updated(machine, 23);
    assert_eq!(machine, RedHatBoyStateMachine::Jumping(body(24, 96, 185, 4, -1)));
    machine = machine.update();
    assert_eq!(machine, RedHatBoyStateMachine::Jumping(body(25, 100, 185, 4, 0)));
    let mut height = machine.game_object().position.y;
    for _ in 0..30 {
        machine = machine.update();
        assert_eq!(machine.state(), State::Jumping);
        assert!(machine.game_object().position.y > height);
        height = machine.game_object().position.y;
    }
    assert_eq!(machine, RedHatBoyStateMachine::Jumping(body(19, 220, 595, 4, 20)));
    machine = machine.update();
    assert_eq!(machine, RedHatBoyStateMachine::Running(body(0, 224, FLOOR, 4, 0)));
}

#[test]
fn gravity_stops_at_terminal_velocity() {
    let falling = RedHatBoyStateMachine::Jumping(body(0, 0, 0, 0, 19));
    let once = falling.update();
    assert_eq!(once.game_object().velocity.y, 20);
    assert_eq!(once.game_object().position.y, 20);
    let twice = once.update();
    assert_eq!(twice.game_object().velocity.y, 20);
    assert_eq!(twice.game_object().position.y, 40);
    assert_eq!(body(0, 0, 0, 0, 500).fall().velocity.y, 20);
}

#[test]
fn land_ends_a_jump() {
    let machine = RedHatBoyStateMachine::Jumping(body(20, 50, 300, -4, 7)).land(350);
    assert_eq!(machine, RedHatBoyStateMachine::Running(body(0, 50, 350, -4, 0)));
}

#[test]
fn land_elsewhere_only_sets_the_height() {
    for machine in one_of_each() {
        if machine.state() == State::Jumping {
            continue;
        }
        let landed = machine.land(-77);
        assert_eq!(landed.state(), machine.state());
        let before = machine.game_object();
        assert_eq!(*landed.game_object(), body(before.frame, before.position.x, -77, before.velocity.x, before.velocity.y));
    }
}

#[test]
fn slide_runs_its_course() {
    let start = RedHatBoyStateMachine::Running(body(11, 100, 485, 4, 0));
    let mut machine = start.slide();
    assert_eq!(machine, RedHatBoyStateMachine::Sliding(body(0, 100, 485 + SLIDE_OFFSET, 4, 0)));
    for step in 1..=13u8 {
        machine = machine.update();
        assert_eq!(
            machine,
            RedHatBoyStateMachine::Sliding(body(step, 100 + 4 * i16::from(step), 500, 4, 0))
        );
    }
    machine = machine.update();
    assert_eq!(machine, RedHatBoyStateMachine::Running(body(0, 156, 485, 4, 0)));
}

#[test]
fn kill_starts_the_crash() {
    let run = RedHatBoyStateMachine::Running(body(13, 40, 485, 4, 0));
    assert_eq!(run.kill(), RedHatBoyStateMachine::Crashing(body(0, 40, 485, 0, 0)));
    let jump = RedHatBoyStateMachine::Jumping(body(13, 40, 300, -4, -12));
    assert_eq!(jump.kill(), RedHatBoyStateMachine::Crashing(body(0, 40, 300, 0, 0)));
}

#[test]
fn death_runs_its_course() {
    let mut machine = RedHatBoyStateMachine::Jumping(body(13, 40, 300, -4, -12)).kill();
    for step in 1..=28u8 {
        machine = machine.update();
        assert_eq!(machine, RedHatBoyStateMachine::Crashing(body(step, 40, 300, 0, 0)));
    }
    machine = machine.update();
    assert_eq!(machine, RedHatBoyStateMachine::GameOver(body(29, 40, 300, 0, 0)));
    machine = machine.update();
    assert_eq!(machine, RedHatBoyStateMachine::GameOver(body(GAME_OVER_FRAMES, 40, 300, 0, 0)));
    for _ in 0..100 {
        machine = machine.update().run().jump().slide().moonwalk().kill();
        assert_eq!(machine, RedHatBoyStateMachine::GameOver(body(29, 40, 300, 0, 0)));
    }
}

#[test]
fn game_over_pins_the_frame() {
    let odd = RedHatBoyStateMachine::GameOver(body(3, 1, 2, 5, 6));
    assert_eq!(odd.update(), RedHatBoyStateMachine::GameOver(body(29, 1, 2, 5, 6)));
}

#[test]
fn body_operations() {
    let object = body(9, 1, 2, 3, 4);
    assert_eq!(object.reset_frame(), body(0, 1, 2, 3, 4));
    assert_eq!(object.run_right(), body(9, 1, 2, 4, 4));
    assert_eq!(object.go_left(), body(9, 1, 2, -1, 4));
    assert_eq!(object.set_on(77), body(9, 1, 77, 3, 4));
    assert_eq!(object.jump(), body(9, 1, 2, 3, -25));
    assert_eq!(object.fall(), body(9, 1, 2, 3, 5));
    assert_eq!(object.update(10), body(10, 4, 6, 3, 4));
    assert_eq!(object.land(), body(9, 1, 2, 3, 0));
    assert_eq!(object.slide(), body(9, 1, 17, 3, 4));
    assert_eq!(object.stand_up(), body(9, 1, -13, 3, 4));
    assert_eq!(object.kill(), body(9, 1, 2, 0, 0));
    assert!(!body(28, 0, 0, 0, 0).animation_finished(10));
    assert!(body(29, 0, 0, 0, 0).animation_finished(10));
    assert!(body(13, 0, 0, 0, 0).animation_finished(5) == false);
    assert!(body(14, 0, 0, 0, 0).animation_finished(5));
}
