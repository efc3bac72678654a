use vstd::prelude::*;
use core::time::Duration;
use crate::input::keymap::KeyMap;

verus! {

/// Messages to the input system; kept for registering callbacks later.
pub enum InputMessage {
    RegisterCallback,
}

/// The state the input manager is in.
#[derive(Clone, Copy, PartialEq, Eq, Structural, Debug)]
pub enum InputState {
    /// The normal state while running.
    Running,
    /// The system tries to end as fast as possible.
    End,
}

/// Messages the input system sends to its polling thread.
pub enum InputThreadMessages {
    /// The thread sleeps for the given time.
    Sleep(Duration),
    /// The polling speed becomes the given number of polls per second.
    ChangePollingSpeed(u32),
    /// The thread ends.
    End,
}

/// What the polling thread found in its message channel.
pub enum Received {
    /// A message arrived.
    Message(InputThreadMessages),
    /// No message is waiting.
    Empty,
    /// The sending side is gone.
    Disconnected,
}

/// What the polling thread does next.
pub enum LoopAction {
    /// Poll the window events now.
    Poll,
    /// Sleep for the given time, then poll.
    SleepThenPoll(Duration),
    /// Leave the loop.
    Stop,
}

/// The state of the polling loop: how many polls per second it allows.
#[derive(Clone, Copy, PartialEq, Eq, Structural, Debug)]
pub struct InputLoop {
    pub polling_speed: u32,
}

impl InputLoop {
    pub fn new(initial_speed: u32) -> (l: Self)
        ensures
            l.polling_speed == initial_speed,
    {
        InputLoop { polling_speed: initial_speed }
    }

    /// Decides the next step of the polling loop from what the channel gave. An end
    /// message or a lost channel stops the loop; a speed change takes effect at once;
    /// a sleep request delays the next poll.
    pub fn on_receive(&mut self, received: Received) -> (action: LoopAction)
        ensures
            match received {
                Received::Message(InputThreadMessages::End) => action is Stop
                    && final(self).polling_speed == old(self).polling_speed,
                Received::Message(InputThreadMessages::ChangePollingSpeed(s)) => action is Poll
                    && final(self).polling_speed == s,
                Received::Message(InputThreadMessages::Sleep(d)) => action == LoopAction::SleepThenPoll(d)
                    && final(self).polling_speed == old(self).polling_speed,
                Received::Empty => action is Poll && final(self).polling_speed == old(self).polling_speed,
                Received::Disconnected => action is Stop
                    && final(self).polling_speed == old(self).polling_speed,
            },
    {
        match received {
            Received::Message(msg) => match msg {
                InputThreadMessages::End => LoopAction::Stop,
                InputThreadMessages::ChangePollingSpeed(speed) => {
                    self.polling_speed = speed;
                    LoopAction::Poll
                },
                InputThreadMessages::Sleep(time) => LoopAction::SleepThenPoll(time),
            },
            Received::Empty => LoopAction::Poll,
            Received::Disconnected => LoopAction::Stop,
        }
    }
}

/// The sending side of the input system: it queues the messages for the polling
/// thread in the order they are issued.
pub struct Input {
    pending: Vec<InputThreadMessages>,
    status: InputState,
    key_map: KeyMap,
}

impl Input {
    /// The messages issued and not yet taken, oldest first.
    pub closed spec fn pending(self) -> Seq<InputThreadMessages> {
        self.pending@
    }

    /// The state of the input system.
    pub closed spec fn state(self) -> InputState {
        self.status
    }

    /// The key map that the polling thread last handed over.
    pub closed spec fn key_map(self) -> KeyMap {
        self.key_map
    }

    /// A running input system with no queued message, holding `key_map`.
    pub fn new(key_map: KeyMap) -> (input: Self)
        ensures
            input.pending() == Seq::<InputThreadMessages>::empty(),
            input.state() == InputState::Running,
            input.key_map() == key_map,
    {
        Input { pending: Vec::new(), status: InputState::Running, key_map }
    }

    /// A copy of the current key map.
    pub fn get_key_map_copy(&self) -> (km: KeyMap)
        ensures
            km == self.key_map(),
    {
        self.key_map
    }

    /// The current key map; the polling thread replaces it from time to time.
    pub fn get_key_map(&self) -> (km: &KeyMap)
        ensures
            *km == self.key_map(),
    {
        &self.key_map
    }

    /// Stores the key map that the polling thread produced.
    pub fn set_key_map(&mut self, key_map: KeyMap)
        ensures
            final(self).key_map() == key_map,
            final(self).pending() == old(self).pending(),
            final(self).state() == old(self).state(),
    {
        self.key_map = key_map;
    }

    /// Tells the polling thread to sleep for `duration`.
    pub fn input_sleep(&mut self, duration: Duration)
        ensures
            final(self).pending() == old(self).pending().push(InputThreadMessages::Sleep(duration)),
            final(self).state() == old(self).state(),
            final(self).key_map() == old(self).key_map(),
    {
        self.pending.push(InputThreadMessages::Sleep(duration));
    }

    /// Changes the polling speed of the polling thread.
    pub fn change_polling_speed(&mut self, new_speed: u32)
        ensures
            final(self).pending() == old(self).pending().push(
                InputThreadMessages::ChangePollingSpeed(new_speed),
            ),
            final(self).state() == old(self).state(),
            final(self).key_map() == old(self).key_map(),
    {
        self.pending.push(InputThreadMessages::ChangePollingSpeed(new_speed));
    }

    /// Tells the polling thread to end and marks the system as ending.
    pub fn end(&mut self)
        ensures
            final(self).pending() == old(self).pending().push(InputThreadMessages::End),
            final(self).state() == InputState::End,
            final(self).key_map() == old(self).key_map(),
    {
        self.pending.push(InputThreadMessages::End);
        self.status = InputState::End;
    }

    /// The state of the input system.
    pub fn get_state(&self) -> (s: InputState)
        ensures
            s == self.state(),
    {
        self.status
    }

    /// Hands out the queued messages, oldest first, and empties the queue.
    pub fn take_messages(&mut self) -> (msgs: Vec<InputThreadMessages>)
        ensures
            msgs@ == old(self).pending(),
            final(self).pending() == Seq::<InputThreadMessages>::empty(),
            final(self).state() == old(self).state(),
            final(self).key_map() == old(self).key_map(),
    {
        let mut msgs = Vec::new();
        std::mem::swap(&mut msgs, &mut self.pending);
        msgs
    }
}

} // verus!
