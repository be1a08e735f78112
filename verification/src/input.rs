//! The keyboard. Key events arrive on a channel at any time; once for each
//! simulation step the channel is drained into the set of keys that are held
//! down, and the step sees that set and nothing else.

use vstd::prelude::*;
use vstd::hash_set::StringHashSet;
use futures::channel::mpsc::{TryRecvError, UnboundedReceiver};

verus! {

/// The receiving end of an unbounded channel of the `futures` crate.
#[verifier::external_type_specification]
#[verifier::external_body]
#[verifier::reject_recursive_types(T)]
pub struct ExUnboundedReceiver<T>(UnboundedReceiver<T>);

/// Why a channel of the `futures` crate had no message to give.
#[verifier::external_type_specification]
#[verifier::external_body]
pub struct ExTryRecvError(TryRecvError);

/// A key went up or down. The event carries the code of the key.
#[derive(Debug, PartialEq, Eq)]
pub enum KeyPress {
    KeyUp(String),
    KeyDown(String),
}

/// The keys that are held down.
pub struct KeyState {
    pressed_keys: StringHashSet,
}

impl View for KeyState {
    type V = Set<Seq<char>>;

    closed spec fn view(&self) -> Set<Seq<char>> {
        self.pressed_keys@
    }
}

/// The held keys after one more event: a key that goes down is held, a key
/// that goes up is not.
pub open spec fn after_event(keys: Set<Seq<char>>, event: KeyPress) -> Set<Seq<char>> {
    match event {
        KeyPress::KeyUp(code) => keys.remove(code@),
        KeyPress::KeyDown(code) => keys.insert(code@),
    }
}

/// The held keys after a run of events, in their order.
pub open spec fn after_events(keys: Set<Seq<char>>, events: Seq<KeyPress>) -> Set<Seq<char>>
    decreases events.len(),
{
    if events.len() == 0 {
        keys
    } else {
        after_event(after_events(keys, events.drop_last()), events.last())
    }
}

/// Recording one run of events and then another is recording the two runs
/// joined.
pub proof fn lemma_after_events_joined(
    keys: Set<Seq<char>>,
    first: Seq<KeyPress>,
    second: Seq<KeyPress>,
)
    ensures
        after_events(after_events(keys, first), second) == after_events(keys, first + second),
    decreases second.len(),
{
    if second.len() == 0 {
        assert(first + second =~= first);
    } else {
        lemma_after_events_joined(keys, first, second.drop_last());
        assert((first + second).drop_last() =~= first + second.drop_last());
        assert((first + second).last() == second.last());
    }
}

impl KeyState {
    /// No key is held.
    pub fn new() -> (state: KeyState)
        ensures
            state@ == Set::<Seq<char>>::empty(),
    {
        KeyState { pressed_keys: StringHashSet::new() }
    }

    /// Whether the key with this code is held down.
    pub fn is_pressed(&self, code: &str) -> (held: bool)
        ensures
            held == self@.contains(code@),
    {
        self.pressed_keys.contains(code)
    }

    /// Records that the key with this code went down.
    pub fn set_pressed(&mut self, code: &str)
        ensures
            final(self)@ == old(self)@.insert(code@),
    {
        self.pressed_keys.insert(code.to_owned());
    }

    /// Records that the key with this code went up.
    pub fn set_released(&mut self, code: &str)
        ensures
            final(self)@ == old(self)@.remove(code@),
    {
        self.pressed_keys.remove(code);
    }

    /// Records one key event.
    pub fn record(&mut self, event: &KeyPress)
        ensures
            final(self)@ == after_event(old(self)@, *event),
    {
        match event {
            KeyPress::KeyUp(code) => self.set_released(code.as_str()),
            KeyPress::KeyDown(code) => self.set_pressed(code.as_str()),
        }
    }

    /// Records a run of key events, in their order.
    pub fn record_all(&mut self, events: &Vec<KeyPress>)
        ensures
            final(self)@ == after_events(old(self)@, events@),
    {
        let mut done: usize = 0;
        while done < events.len()
            invariant
                done <= events.len(),
                self@ == after_events(old(self)@, events@.take(done as int)),
            decreases events.len() - done,
        {
            self.record(&events[done]);
            proof {
                assert(events@.take(done + 1).drop_last() =~= events@.take(done as int));
            }
            done += 1;
        }
        proof {
            assert(events@.take(done as int) =~= events@);
        }
    }
}

/// Takes the next message off the channel without waiting, by
/// `UnboundedReceiver::try_next` of the `futures` crate. Nothing is claimed
/// of the answer: what the channel holds is up to the senders.
#[allow(deprecated)]
#[verifier::external_body]
fn try_next(receiver: &mut UnboundedReceiver<KeyPress>) -> (message: Result<
    Option<KeyPress>,
    TryRecvError,
>) {
    receiver.try_next()
}

/// Takes every event that is waiting off the channel, in the order of their
/// arrival. An empty or closed channel ends the drain at once.
fn drain(keyevent_receiver: &mut UnboundedReceiver<KeyPress>) -> (events: Vec<KeyPress>) {
    let mut events: Vec<KeyPress> = Vec::new();
    loop
        decreases usize::MAX - events.len(),
    {
        match try_next(keyevent_receiver) {
            Ok(None) => {
                break ;
            },
            Err(_) => {
                break ;
            },
            Ok(Some(event)) => {
                events.push(event);
            },
        }
    }
    events
}

/// Brings the set of held keys up to date with the events that are waiting
/// on the channel. Which events those are is up to the senders; whatever
/// they are, the set afterwards is the set before with those events
/// recorded in their order.
pub fn process_input(state: &mut KeyState, keyevent_receiver: &mut UnboundedReceiver<KeyPress>)
    ensures
        exists|events: Seq<KeyPress>| final(state)@ == after_events(old(state)@, events),
{
    let events = drain(keyevent_receiver);
    state.record_all(&events);
}

} // verus!
