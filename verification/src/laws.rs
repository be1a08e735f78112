//! What holds of the character over whole runs: statements about every
//! state, every event and every number of steps, proved from the transition
//! table and the rules of the game.

use vstd::prelude::*;
use crate::character::{after_platform, Platform};
use crate::game::{after_keys, after_platforms, after_step};
use crate::geometry::{Rect, Vector};
use crate::machine::{Event, RedHatBoyStateMachine, State};
use crate::physics::{
    animation_steps, pulled_down, CRASHING_FRAMES, FLOOR, GAME_OVER_FRAMES, JUMP_IMPULSE,
    RUN_SPEED, SLIDE_OFFSET, SLIDING_FRAMES, TERMINAL_VELOCITY,
};
use crate::sheet::SpriteSheet;

verus! {

/// An event that the transition table does not list for the live state
/// leaves the machine exactly as it was.
pub proof fn lemma_unlisted_event_changes_nothing(machine: RedHatBoyStateMachine, event: Event)
    requires
        !machine.tag().lists(event),
    ensures
        machine.step(event) == machine,
{
}

/// No event breaks the machine's invariant.
pub proof fn lemma_step_keeps_invariant(machine: RedHatBoyStateMachine, event: Event)
    requires
        machine.wf(),
    ensures
        machine.step(event).wf(),
{
}

/// No sequence of events breaks the machine's invariant.
pub proof fn lemma_run_keeps_invariant(machine: RedHatBoyStateMachine, events: Seq<Event>)
    requires
        machine.wf(),
    ensures
        machine.run_through(events).wf(),
    decreases events.len(),
{
    if events.len() > 0 {
        lemma_run_keeps_invariant(machine, events.drop_last());
        lemma_step_keeps_invariant(machine.run_through(events.drop_last()), events.last());
    }
}

/// No number of simulation steps breaks the machine's invariant.
pub proof fn lemma_updates_keep_invariant(machine: RedHatBoyStateMachine, steps: nat)
    requires
        machine.wf(),
    ensures
        machine.after(steps).wf(),
    decreases steps,
{
    if steps > 0 {
        lemma_updates_keep_invariant(machine, (steps - 1) as nat);
    }
}

/// The frame counter always lies inside the animation of the live state.
pub proof fn lemma_frame_within_animation(machine: RedHatBoyStateMachine)
    requires
        machine.wf(),
    ensures
        0 <= machine.body().frame < animation_steps(machine.tag().frames()),
{
}

/// Whatever happens to the character, its frame counter stays inside the
/// animation of the state it is in.
pub proof fn lemma_frame_stays_within_animation(
    machine: RedHatBoyStateMachine,
    events: Seq<Event>,
)
    requires
        machine.wf(),
    ensures
        machine.run_through(events).body().frame < animation_steps(
            machine.run_through(events).tag().frames(),
        ),
{
    lemma_run_keeps_invariant(machine, events);
}

/// One more step after `steps` steps is the step after them.
proof fn lemma_after_next(machine: RedHatBoyStateMachine, steps: nat)
    ensures
        machine.after(steps + 1) == machine.after(steps).updated(),
{
}

/// Steps can be counted from either end: the first step and then `steps`
/// more are `steps + 1` steps.
pub proof fn lemma_after_first(machine: RedHatBoyStateMachine, steps: nat)
    ensures
        machine.updated().after(steps) == machine.after(steps + 1),
    decreases steps,
{
    if steps == 0 {
        assert(machine.after(1) == machine.after(0).updated());
    } else {
        lemma_after_first(machine, (steps - 1) as nat);
        assert(machine.updated().after(steps) == machine.updated().after(
            (steps - 1) as nat,
        ).updated());
        lemma_after_next(machine, steps);
    }
}

/// Whether the machine stays in the state it is in for the next `steps`
/// steps.
pub open spec fn stays(machine: RedHatBoyStateMachine, steps: nat) -> bool {
    forall|k: nat| k <= steps ==> (#[trigger] machine.after(k)).tag() == machine.tag()
}

/// The frame counter of a machine that has stayed in its state for `steps`
/// steps: it has gone round the animation, but for a slide and a crash, which
/// count straight up, and the end of the game, which does not count.
proof fn lemma_frame_while_staying(machine: RedHatBoyStateMachine, steps: nat)
    requires
        machine.wf(),
        stays(machine, steps),
    ensures
        machine.after(steps).wf(),
        machine.after(steps).tag() == machine.tag(),
        match machine.tag() {
            State::Idle | State::Running | State::Jumping => machine.after(steps).body().frame
                == (machine.body().frame + steps) % animation_steps(machine.tag().frames()),
            State::Sliding | State::Crashing => machine.after(steps).body().frame
                == machine.body().frame + steps,
            State::GameOver => machine.after(steps).body().frame == machine.body().frame,
        },
    decreases steps,
{
    let length = animation_steps(machine.tag().frames());
    let start = machine.body().frame as int;
    if steps == 0 {
        assert(0 <= start < length);
        assert(start % length == start) by (nonlinear_arith)
            requires
                0 <= start < length,
        ;
    } else {
        let before = (steps - 1) as nat;
        assert(stays(machine, before));
        lemma_frame_while_staying(machine, before);
        assert(machine.after(steps) == machine.after(before).updated());
        assert(machine.after(steps).tag() == machine.tag());
        lemma_remainder_counts_up(start + before, length);
    }
}

/// Counting one further moves the remainder one further, and back to 0 at the
/// end of the round.
proof fn lemma_remainder_counts_up(count: int, length: int)
    requires
        0 <= count,
        0 < length,
    ensures
        (count + 1) % length == if count % length + 1 < length {
            count % length + 1
        } else {
            0
        },
        0 <= count % length < length,
{
    vstd::arithmetic::div_mod::lemma_fundamental_div_mod(count, length);
    vstd::arithmetic::div_mod::lemma_mod_bound(count, length);
    let quotient = count / length;
    let remainder = count % length;
    assert(count == quotient * length + remainder) by (nonlinear_arith)
        requires
            count == length * quotient + remainder,
    ;
    if remainder + 1 < length {
        vstd::arithmetic::div_mod::lemma_fundamental_div_mod_converse(
            count + 1,
            length,
            quotient,
            remainder + 1,
        );
    } else {
        assert(count + 1 == (quotient + 1) * length + 0) by (nonlinear_arith)
            requires
                count == quotient * length + remainder,
                remainder + 1 == length,
        ;
        vstd::arithmetic::div_mod::lemma_fundamental_div_mod_converse(
            count + 1,
            length,
            quotient + 1,
            0,
        );
    }
}

/// A machine that stays in one state for as many steps as the state's
/// animation lasts shows the frame it started with: the animation has gone
/// round once.
pub proof fn lemma_animation_goes_round(machine: RedHatBoyStateMachine)
    requires
        machine.wf(),
        stays(machine, animation_steps(machine.tag().frames()) as nat),
    ensures
        machine.after(animation_steps(machine.tag().frames()) as nat).body().frame
            == machine.body().frame,
{
    let length = animation_steps(machine.tag().frames());
    let start = machine.body().frame as int;
    lemma_frame_while_staying(machine, length as nat);
    vstd::arithmetic::div_mod::lemma_mod_add_multiples_vanish(start, length);
    vstd::arithmetic::div_mod::lemma_small_mod(start as nat, length as nat);
}

/// Standing still and running never leave their state by themselves, so
/// their animations always go round.
pub proof fn lemma_idle_and_running_go_round(machine: RedHatBoyStateMachine)
    requires
        machine.wf(),
        machine is Idle || machine is Running,
    ensures
        stays(machine, animation_steps(machine.tag().frames()) as nat),
        machine.after(animation_steps(machine.tag().frames()) as nat).body().frame
            == machine.body().frame,
{
    assert forall|k: nat| (#[trigger] machine.after(k)).tag() == machine.tag() by {
        lemma_keeps_standing_or_running(machine, k);
    }
    lemma_animation_goes_round(machine);
}

proof fn lemma_keeps_standing_or_running(machine: RedHatBoyStateMachine, steps: nat)
    requires
        machine is Idle || machine is Running,
    ensures
        machine.after(steps).tag() == machine.tag(),
    decreases steps,
{
    if steps > 0 {
        lemma_keeps_standing_or_running(machine, (steps - 1) as nat);
    }
}

/// The horizontal speed never exceeds the running speed, in either
/// direction, whatever sequence of events the character goes through.
pub proof fn lemma_speed_stays_bounded(machine: RedHatBoyStateMachine, events: Seq<Event>)
    requires
        machine.wf(),
    ensures
        -RUN_SPEED <= machine.run_through(events).body().velocity.x <= RUN_SPEED,
{
    lemma_run_keeps_invariant(machine, events);
}

/// The machine after `times` pushes to the right.
pub open spec fn pushed_right_times(machine: RedHatBoyStateMachine, times: nat)
    -> RedHatBoyStateMachine
    decreases times,
{
    if times == 0 {
        machine
    } else {
        pushed_right_times(machine, (times - 1) as nat).step(Event::Run)
    }
}

/// The machine after `times` pushes to the left.
pub open spec fn pushed_left_times(machine: RedHatBoyStateMachine, times: nat)
    -> RedHatBoyStateMachine
    decreases times,
{
    if times == 0 {
        machine
    } else {
        pushed_left_times(machine, (times - 1) as nat).step(Event::Moonwalk)
    }
}

/// However often the character is pushed to the right, it never moves
/// faster than the running speed; from the third push on, a push changes
/// nothing.
pub proof fn lemma_repeated_run_is_clamped(machine: RedHatBoyStateMachine, times: nat)
    requires
        machine.wf(),
    ensures
        pushed_right_times(machine, times).wf(),
        pushed_right_times(machine, times).body().velocity.x <= RUN_SPEED,
        times >= 2 ==> pushed_right_times(machine, times) == pushed_right_times(machine, 2),
    decreases times,
{
    reveal_with_fuel(pushed_right_times, 3);
    if times > 0 {
        lemma_repeated_run_is_clamped(machine, (times - 1) as nat);
    }
}

/// However often the character is pushed to the left, it never moves
/// faster than the running speed; from the third push on, a push changes
/// nothing.
pub proof fn lemma_repeated_moonwalk_is_clamped(machine: RedHatBoyStateMachine, times: nat)
    requires
        machine.wf(),
    ensures
        pushed_left_times(machine, times).wf(),
        pushed_left_times(machine, times).body().velocity.x >= -RUN_SPEED,
        times >= 2 ==> pushed_left_times(machine, times) == pushed_left_times(machine, 2),
    decreases times,
{
    reveal_with_fuel(pushed_left_times, 3);
    if times > 0 {
        lemma_repeated_moonwalk_is_clamped(machine, (times - 1) as nat);
    }
}

/// A jump starts from a run, and only from a run: the character leaves the
/// ground where it stands, with the jump's upward velocity and its
/// animation at the start.
pub proof fn lemma_jump_takes_off(machine: RedHatBoyStateMachine)
    requires
        machine is Running,
    ensures
        machine.step(Event::Jump) is Jumping,
        machine.step(Event::Jump).body().velocity.y == JUMP_IMPULSE,
        machine.step(Event::Jump).body().velocity.x == machine.body().velocity.x,
        machine.step(Event::Jump).body().position == machine.body().position,
        machine.step(Event::Jump).body().frame == 0,
        machine.wf() ==> machine.step(Event::Jump).wf(),
{
}

/// A landing ends a jump at the height it names: the character runs on, at
/// exactly that height, with no vertical velocity left.
pub proof fn lemma_landing_ends_jump(machine: RedHatBoyStateMachine, on: i16)
    requires
        machine is Jumping,
    ensures
        machine.step(Event::Land(on)) is Running,
        machine.step(Event::Land(on)).body().position.y == on,
        machine.step(Event::Land(on)).body().position.x == machine.body().position.x,
        machine.step(Event::Land(on)).body().velocity.y == 0,
        machine.step(Event::Land(on)).body().velocity.x == machine.body().velocity.x,
{
}

/// One step of a jump either ends it on the floor, the character running on
/// with no vertical velocity, or leaves the character in the air above the
/// floor, faster downwards by gravity unless it already falls at terminal
/// velocity.
pub proof fn lemma_airborne_step(machine: RedHatBoyStateMachine)
    requires
        machine is Jumping,
        machine.wf(),
    ensures
        machine.updated() is Running || machine.updated() is Jumping,
        machine.updated() is Running ==> {
            &&& machine.updated().body().position.y == FLOOR
            &&& machine.updated().body().velocity.y == 0
        },
        machine.updated() is Jumping ==> {
            &&& machine.updated().body().position.y < FLOOR
            &&& machine.updated().body().velocity.y == pulled_down(machine.body().velocity.y)
            &&& machine.body().velocity.y < TERMINAL_VELOCITY
                ==> machine.updated().body().velocity.y > machine.body().velocity.y
            &&& machine.updated().body().velocity.x == machine.body().velocity.x
            &&& machine.updated().body().position.x == machine.body().position.x.wrapping_add(
                machine.body().velocity.x,
            )
        },
{
}

/// A character in the air above the floor that no longer rises comes
/// strictly closer to the floor with every step, until the step that lands it.
pub proof fn lemma_falling_descends(machine: RedHatBoyStateMachine)
    requires
        machine is Jumping,
        machine.wf(),
        machine.body().position.y < FLOOR,
        machine.body().velocity.y >= 0,
    ensures
        machine.updated() is Jumping ==> machine.body().position.y
            < machine.updated().body().position.y < FLOOR,
        machine.updated() is Jumping ==> machine.updated().body().velocity.y > 0,
        !(machine.updated() is Jumping) ==> {
            &&& machine.updated() is Running
            &&& machine.updated().body().position.y == FLOOR
            &&& machine.updated().body().velocity.y == 0
        },
{
}

/// A character in the air that still rises after gravity has pulled at it
/// comes strictly further up with the step, unless the step lands it or
/// carries it over the top of the 16-bit range.
pub proof fn lemma_rising_ascends(machine: RedHatBoyStateMachine)
    requires
        machine is Jumping,
        machine.wf(),
        pulled_down(machine.body().velocity.y) < 0,
        machine.body().position.y + pulled_down(machine.body().velocity.y) >= i16::MIN,
    ensures
        machine.updated() is Jumping ==> machine.updated().body().position.y
            < machine.body().position.y,
        machine.updated() is Jumping ==> machine.updated().body().velocity.y
            > machine.body().velocity.y,
{
}

/// How many steps a jump can still last at most: what it still has to gain in
/// downward velocity weighs more than any distance to the floor.
pub open spec fn airtime_bound(machine: RedHatBoyStateMachine) -> nat {
    let object = machine.body();
    let distance = if object.position.y < FLOOR {
        FLOOR - object.position.y
    } else {
        40000
    };
    if machine is Jumping && machine.wf() {
        (40000 * (TERMINAL_VELOCITY - object.velocity.y) + distance) as nat
    } else {
        0
    }
}

/// Every jump comes down: after some number of steps in the air, which this
/// proof returns, the character runs on the floor, at exactly the floor's
/// height and with no vertical velocity.
pub proof fn lemma_jump_lands(machine: RedHatBoyStateMachine) -> (steps: nat)
    requires
        machine is Jumping,
        machine.wf(),
    ensures
        0 < steps <= airtime_bound(machine),
        forall|k: nat| k < steps ==> (#[trigger] machine.after(k)) is Jumping,
        machine.after(steps) is Running,
        machine.after(steps).body().position.y == FLOOR,
        machine.after(steps).body().velocity.y == 0,
        machine.after(steps).wf(),
    decreases airtime_bound(machine),
{
    let next = machine.updated();
    lemma_airborne_step(machine);
    assert(machine.after(1) == machine.after(0).updated());
    if next is Running {
        assert forall|k: nat| k < 1 implies (#[trigger] machine.after(k)) is Jumping by {
            assert(k == 0);
        }
        1
    } else {
        assert(airtime_bound(next) < airtime_bound(machine));
        let rest = lemma_jump_lands(next);
        lemma_after_first(machine, rest);
        assert forall|k: nat| k < rest + 1 implies (#[trigger] machine.after(k)) is Jumping by {
            if k > 0 {
                lemma_after_first(machine, (k - 1) as nat);
                assert(next.after((k - 1) as nat) is Jumping);
            }
        }
        rest + 1
    }
}

/// The number of steps that a slide lasts.
pub open spec fn slide_steps() -> nat {
    (animation_steps(SLIDING_FRAMES) - 1) as nat
}

/// The number of steps that a crash lasts.
pub open spec fn crash_steps() -> nat {
    (animation_steps(CRASHING_FRAMES) - 1) as nat
}

/// A slide that has lasted `steps` steps, fewer than a whole slide: the
/// character still slides, lowered by the slide offset, and has drifted on
/// with the velocity of the run.
proof fn lemma_during_slide(machine: RedHatBoyStateMachine, steps: nat)
    requires
        machine is Running,
        machine.wf(),
        steps < slide_steps(),
    ensures
        machine.step(Event::Slide).after(steps) is Sliding,
        machine.step(Event::Slide).after(steps).body().frame == steps,
        machine.step(Event::Slide).after(steps).body().velocity == machine.body().velocity,
        machine.step(Event::Slide).after(steps).body().position.y
            == machine.body().position.y.wrapping_add(SLIDE_OFFSET),
    decreases steps,
{
    if steps > 0 {
        lemma_during_slide(machine, (steps - 1) as nat);
    }
}

/// A slide runs its course. From a run, sliding lowers the character by the
/// slide offset; for one step less than the slide's animation lasts the
/// character slides; the step after, it runs again at the height and with
/// the velocity it had before the slide.
pub proof fn lemma_slide_round_trip(machine: RedHatBoyStateMachine)
    requires
        machine is Running,
        machine.wf(),
    ensures
        machine.step(Event::Slide) is Sliding,
        machine.step(Event::Slide).body().position.y == machine.body().position.y.wrapping_add(
            SLIDE_OFFSET,
        ),
        machine.step(Event::Slide).body().position.x == machine.body().position.x,
        forall|k: nat|
            k < slide_steps() ==> (#[trigger] machine.step(Event::Slide).after(k)) is Sliding,
        machine.step(Event::Slide).after(slide_steps()) is Running,
        machine.step(Event::Slide).after(slide_steps()).body().position.y
            == machine.body().position.y,
        machine.step(Event::Slide).after(slide_steps()).body().velocity
            == machine.body().velocity,
        machine.step(Event::Slide).after(slide_steps()).body().frame == 0,
{
    assert forall|k: nat| k < slide_steps() implies (#[trigger] machine.step(Event::Slide).after(
        k,
    )) is Sliding by {
        lemma_during_slide(machine, k);
    }
    lemma_during_slide(machine, (slide_steps() - 1) as nat);
    assert(machine.step(Event::Slide).after(slide_steps()) == machine.step(Event::Slide).after(
        (slide_steps() - 1) as nat,
    ).updated());
}

/// A crash that has lasted `steps` steps, fewer than a whole crash: the
/// character still crashes, at rest where it was hit.
proof fn lemma_during_crash(machine: RedHatBoyStateMachine, steps: nat)
    requires
        machine is Running || machine is Jumping,
        steps < crash_steps(),
    ensures
        machine.step(Event::Kill).after(steps) is Crashing,
        machine.step(Event::Kill).after(steps).body().frame == steps,
        machine.step(Event::Kill).after(steps).body().velocity == (Vector { x: 0, y: 0 }),
        machine.step(Event::Kill).after(steps).body().position == machine.body().position,
    decreases steps,
{
    if steps > 0 {
        lemma_during_crash(machine, (steps - 1) as nat);
    }
}

/// A crashed character from the end of its crash on: the game is over, the
/// frame counter is pinned and the character lies where it was hit.
proof fn lemma_after_crash(machine: RedHatBoyStateMachine, steps: nat)
    requires
        machine is Running || machine is Jumping,
        steps >= crash_steps(),
    ensures
        machine.step(Event::Kill).after(steps) is GameOver,
        machine.step(Event::Kill).after(steps).body().frame == GAME_OVER_FRAMES,
        machine.step(Event::Kill).after(steps).body().velocity == (Vector { x: 0, y: 0 }),
        machine.step(Event::Kill).after(steps).body().position == machine.body().position,
    decreases steps,
{
    if steps == crash_steps() {
        lemma_during_crash(machine, (steps - 1) as nat);
    } else {
        lemma_after_crash(machine, (steps - 1) as nat);
    }
}

/// Death runs its course. Killing a running or jumping character starts the
/// crash; for one step less than the crash's animation lasts the character
/// crashes; from then on, and so after as many steps as the animation
/// lasts, the game is over for good, the frame counter pinned and the
/// character at rest where it was hit.
pub proof fn lemma_death_round_trip(machine: RedHatBoyStateMachine)
    requires
        machine is Running || machine is Jumping,
    ensures
        machine.step(Event::Kill) is Crashing,
        machine.step(Event::Kill).wf(),
        forall|k: nat|
            k < crash_steps() ==> (#[trigger] machine.step(Event::Kill).after(k)) is Crashing,
        forall|k: nat|
            k >= crash_steps() ==> {
                &&& (#[trigger] machine.step(Event::Kill).after(k)) is GameOver
                &&& machine.step(Event::Kill).after(k).body().frame == GAME_OVER_FRAMES
                &&& machine.step(Event::Kill).after(k).body().position
                    == machine.body().position
            },
        machine.step(Event::Kill).after(animation_steps(CRASHING_FRAMES) as nat) is GameOver,
{
    assert forall|k: nat| k < crash_steps() implies (#[trigger] machine.step(Event::Kill).after(
        k,
    )) is Crashing by {
        lemma_during_crash(machine, k);
    }
    assert forall|k: nat| k >= crash_steps() implies {
        &&& (#[trigger] machine.step(Event::Kill).after(k)) is GameOver
        &&& machine.step(Event::Kill).after(k).body().frame == GAME_OVER_FRAMES
        &&& machine.step(Event::Kill).after(k).body().position == machine.body().position
    } by {
        lemma_after_crash(machine, k);
    }
    lemma_after_crash(machine, animation_steps(CRASHING_FRAMES) as nat);
}

/// The end of the game is final: no event leaves it, and none moves the
/// character sideways or gives it a velocity.
pub proof fn lemma_game_over_is_final(machine: RedHatBoyStateMachine, event: Event)
    requires
        machine is GameOver,
    ensures
        machine.step(event) is GameOver,
        machine.step(event).body().velocity == machine.body().velocity,
        machine.step(event).body().position.x == machine.body().position.x,
        event is Update ==> machine.step(event).body().frame == GAME_OVER_FRAMES,
        event is Update ==> machine.step(event).body().position == machine.body().position,
{
}

/// Once the game is over it stays over, whatever events follow.
pub proof fn lemma_game_over_forever(machine: RedHatBoyStateMachine, events: Seq<Event>)
    requires
        machine is GameOver,
    ensures
        machine.run_through(events) is GameOver,
    decreases events.len(),
{
    if events.len() > 0 {
        lemma_game_over_forever(machine, events.drop_last());
        lemma_game_over_is_final(machine.run_through(events.drop_last()), events.last());
    }
}

/// Meeting a platform does not break the machine's invariant.
pub proof fn lemma_platform_keeps_invariant(
    sprites: &SpriteSheet,
    machine: RedHatBoyStateMachine,
    platform: Platform,
)
    requires
        machine.wf(),
    ensures
        after_platform(sprites, machine, platform).wf(),
{
}

/// Meeting any number of platforms does not break the machine's invariant.
pub proof fn lemma_platforms_keep_invariant(
    sprites: &SpriteSheet,
    machine: RedHatBoyStateMachine,
    platforms: Seq<Platform>,
)
    requires
        machine.wf(),
    ensures
        after_platforms(sprites, machine, platforms).wf(),
    decreases platforms.len(),
{
    if platforms.len() > 0 {
        lemma_platforms_keep_invariant(sprites, machine, platforms.drop_last());
        lemma_platform_keeps_invariant(
            sprites,
            after_platforms(sprites, machine, platforms.drop_last()),
            platforms.last(),
        );
    }
}

/// A whole simulation step of the game, whatever keys are held and
/// whatever the character runs into, does not break the machine's
/// invariant: in the game too the frame counter stays inside the animation
/// and the horizontal speed within the running speed.
pub proof fn lemma_game_step_keeps_invariant(
    sprites: &SpriteSheet,
    machine: RedHatBoyStateMachine,
    keys: Set<Seq<char>>,
    platforms: Seq<Platform>,
    rock: Rect,
)
    requires
        machine.wf(),
    ensures
        after_step(sprites, machine, keys, platforms, rock).wf(),
        after_step(sprites, machine, keys, platforms, rock).body().frame < animation_steps(
            after_step(sprites, machine, keys, platforms, rock).tag().frames(),
        ),
        -RUN_SPEED <= after_step(sprites, machine, keys, platforms, rock).body().velocity.x
            <= RUN_SPEED,
{
    let moved = after_keys(machine, keys).step(Event::Update);
    assert(moved.wf());
    lemma_platforms_keep_invariant(sprites, moved, platforms);
}

/// In the game the end is final as well: no step of the game leaves it or
/// moves the character sideways.
pub proof fn lemma_game_over_survives_the_game(
    sprites: &SpriteSheet,
    machine: RedHatBoyStateMachine,
    keys: Set<Seq<char>>,
    platforms: Seq<Platform>,
    rock: Rect,
)
    requires
        machine is GameOver,
    ensures
        after_step(sprites, machine, keys, platforms, rock) is GameOver,
        after_step(sprites, machine, keys, platforms, rock).body().position.x
            == machine.body().position.x,
        after_step(sprites, machine, keys, platforms, rock).body().frame == GAME_OVER_FRAMES,
{
    let moved = after_keys(machine, keys).step(Event::Update);
    assert(moved is GameOver);
    lemma_game_over_meets_platforms(sprites, moved, platforms);
}

proof fn lemma_game_over_meets_platforms(
    sprites: &SpriteSheet,
    machine: RedHatBoyStateMachine,
    platforms: Seq<Platform>,
)
    requires
        machine is GameOver,
    ensures
        after_platforms(sprites, machine, platforms) is GameOver,
        after_platforms(sprites, machine, platforms).body().position.x
            == machine.body().position.x,
        after_platforms(sprites, machine, platforms).body().frame == machine.body().frame,
    decreases platforms.len(),
{
    if platforms.len() > 0 {
        lemma_game_over_meets_platforms(sprites, machine, platforms.drop_last());
    }
}

} // verus!
