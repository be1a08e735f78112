//! The fixed-timestep loop. The host calls back at its own pace; the loop
//! adds up the time that has passed and pays it out in simulation steps of
//! one fixed size, none, one or many for each callback.
//!
//! Time is counted in ticks, sixty to the millisecond, so that one step of
//! a sixtieth of a second lasts a whole number of ticks.

use vstd::prelude::*;
use futures::channel::mpsc::UnboundedReceiver;
use crate::input::{after_events, lemma_after_events_joined, process_input, KeyPress, KeyState};

verus! {

/// The number of ticks in a millisecond.
pub const TICKS_PER_MILLISECOND: u64 = 60;

/// The length of one simulation step, in ticks: a sixtieth of a second.
pub const FRAME_SIZE: u64 = 1000;

/// A game that the loop can drive, one simulation step at a time.
pub trait Game: Sized {
    /// Whether this is the game one simulation step after `before`, with
    /// the keys `keys` held. Each game says for itself what a step does; a
    /// game that says nothing allows every step.
    open spec fn follows(&self, before: &Self, keys: Set<Seq<char>>) -> bool {
        true
    }

    /// Simulates one step, given the keys that are held down.
    fn update(&mut self, keystate: &KeyState)
        ensures
            final(self).follows(old(self), keystate@),
    ;
}

/// Whether `games` is a run of simulation steps: each game but the first
/// is the game that the one before it becomes in one step, the step from
/// game `i` seeing the keys `held[i]`.
pub open spec fn plays<G: Game>(games: Seq<G>, held: Seq<Set<Seq<char>>>) -> bool {
    &&& games.len() == held.len() + 1
    &&& forall|i: int|
        0 <= i < held.len() ==> (#[trigger] games[i + 1]).follows(&games[i], held[i])
}

/// The time from `last` to `now`. A clock that runs backwards counts as
/// standing still.
pub open spec fn elapsed(last: u64, now: u64) -> int {
    if now >= last {
        now - last
    } else {
        0
    }
}

/// The number of simulation steps to run when `time` ticks have piled up:
/// as many as it takes until no more than one step's worth is left.
pub open spec fn steps_due(time: int) -> int {
    if time <= FRAME_SIZE {
        0
    } else {
        (time - 1) / (FRAME_SIZE as int)
    }
}

/// The time that `steps` simulation steps use up.
pub open spec fn time_of(steps: int) -> int {
    FRAME_SIZE * steps
}

/// The loop's clock: when the host last called back, and the time that has
/// piled up since without having been paid out in steps.
pub struct GameLoop {
    last_frame: u64,
    accumulated_delta: u64,
}

impl GameLoop {
    /// The time of the host's last callback.
    pub closed spec fn last(&self) -> u64 {
        self.last_frame
    }

    /// The time that has piled up.
    pub closed spec fn accumulated(&self) -> u64 {
        self.accumulated_delta
    }

    /// A loop that starts at time `now` with nothing piled up.
    pub fn new(now: u64) -> (game_loop: GameLoop)
        ensures
            game_loop.last() == now,
            game_loop.accumulated() == 0,
    {
        GameLoop { last_frame: now, accumulated_delta: 0 }
    }

    /// The time of the host's last callback.
    pub fn last_frame(&self) -> (time: u64)
        ensures
            time == self.last(),
    {
        self.last_frame
    }

    /// The time that has piled up.
    pub fn accumulated_delta(&self) -> (time: u64)
        ensures
            time == self.accumulated(),
    {
        self.accumulated_delta
    }

    /// Handles one callback of the host at time `now`: adds the time since
    /// the last callback to what had piled up, and while more than one
    /// step's worth is left, brings the held keys up to date and runs one
    /// step of the game. Returns the number of steps it ran. What is left
    /// stays piled up for the next callback.
    ///
    /// Which keys each step sees is up to the senders on the channel. The
    /// game goes through a run of exactly the steps that are due, the last
    /// of them with the keys that are held at the end; with no step due,
    /// neither the game nor the keys change.
    pub fn advance<G: Game>(
        &mut self,
        now: u64,
        game: &mut G,
        keystate: &mut KeyState,
        keyevent_receiver: &mut UnboundedReceiver<KeyPress>,
    ) -> (steps: u64)
        ensures
            steps == steps_due(old(self).accumulated() + elapsed(old(self).last(), now)),
            final(self).accumulated() == old(self).accumulated() + elapsed(old(self).last(), now)
                - time_of(steps as int),
            final(self).last() == now,
            exists|games: Seq<G>, held: Seq<Set<Seq<char>>>|
                {
                    &&& #[trigger] plays(games, held)
                    &&& held.len() == steps
                    &&& games.first() == *old(game)
                    &&& games.last() == *final(game)
                    &&& steps > 0 ==> held.last() == final(keystate)@
                },
            exists|events: Seq<KeyPress>|
                final(keystate)@ == #[trigger] after_events(old(keystate)@, events),
            steps == 0 ==> final(keystate)@ == old(keystate)@,
            steps == 0 ==> *final(game) == *old(game),
    {
        let delta: u64 = if now >= self.last_frame {
            now - self.last_frame
        } else {
            0
        };
        let mut time: u128 = self.accumulated_delta as u128 + delta as u128;
        let ghost piled_up = time;
        let mut steps: u64 = 0;
        let ghost mut games: Seq<G> = seq![*game];
        let ghost mut held: Seq<Set<Seq<char>>> = Seq::empty();
        let ghost mut events: Seq<KeyPress> = Seq::empty();
        while time > FRAME_SIZE as u128
            invariant
                time + time_of(steps as int) == piled_up,
                piled_up <= 2 * u64::MAX,
                steps > 0 ==> time >= 1,
                held.len() == steps,
                plays(games, held),
                games.first() == *old(game),
                games.last() == *game,
                steps > 0 ==> held.last() == keystate@,
                steps == 0 ==> events.len() == 0,
                keystate@ == after_events(old(keystate)@, events),
            decreases time,
        {
            let ghost keys_before = keystate@;
            process_input(keystate, keyevent_receiver);
            game.update(keystate);
            proof {
                let arrived = choose|arrived: Seq<KeyPress>|
                    keystate@ == after_events(keys_before, arrived);
                lemma_after_events_joined(old(keystate)@, events, arrived);
                events = events + arrived;
                games = games.push(*game);
                held = held.push(keystate@);
            }
            time -= FRAME_SIZE as u128;
            steps += 1;
        }
        self.accumulated_delta = time as u64;
        self.last_frame = now;
        steps
    }
}

/// The steps that are due are what a loop runs that takes one step's worth
/// of time off the pile for as long as more than one step's worth is left:
/// after them no more than one step's worth is left, and before the last
/// of them more than that was.
pub proof fn lemma_steps_due_drain_the_pile(time: int)
    requires
        0 <= time,
    ensures
        0 <= steps_due(time),
        0 <= time - time_of(steps_due(time)) <= FRAME_SIZE,
        steps_due(time) > 0 ==> time - time_of(steps_due(time) - 1) > FRAME_SIZE,
        steps_due(time) == 0 <==> time <= FRAME_SIZE,
{
}

} // verus!
