//! The session: one state, changed by what arrives and by what callers ask.
//!
//! The state holds the column schema of the feed, the queue of commands and
//! the flag that keeps the dispatch loop alive. Each change is a function
//! from the state and an event to the next state and an [`Effect`]. The
//! effect names the callback to run and the message to send; the caller does
//! both once the state's lock is released. Commands are answered strictly in
//! the order in which they were queued, and only the first of the queue is
//! ever on the wire.

pub mod laws;

use crate::connection::{ConnError, RxMessage, RxView};
use crate::interface::{
    clone_keys, FeedValue, Message, MessageView, ResponseValue, ResponseView,
};
use std::collections::VecDeque;
use std::time::SystemTime;
use vstd::prelude::*;

verus! {

/// A message to send and the completion to hand its answer to.
pub struct Command<C> {
    pub message: Message,
    pub on_complete: C,
}

/// View of a [`Command`].
pub struct CommandView<C> {
    pub message: MessageView,
    pub on_complete: C,
}

impl<C> View for Command<C> {
    type V = CommandView<C>;

    open spec fn view(&self) -> CommandView<C> {
        CommandView { message: self.message@, on_complete: self.on_complete }
    }
}

/// The state of one session.
pub struct ConnectionState<C> {
    /// The keys of the last description, if one has arrived.
    pub feed_schema: Option<Vec<String>>,
    /// The commands not yet answered, oldest first. The first is the one on
    /// the wire.
    pub pending_commands: VecDeque<Command<C>>,
    /// Cleared to ask the dispatch loop to end.
    pub running: bool,
}

/// View of a [`ConnectionState`].
pub struct StateView<C> {
    pub feed_schema: Option<Seq<Seq<char>>>,
    pub pending: Seq<CommandView<C>>,
    pub running: bool,
}

impl<C> View for ConnectionState<C> {
    type V = StateView<C>;

    open spec fn view(&self) -> StateView<C> {
        StateView {
            feed_schema: match self.feed_schema {
                Some(keys) => Some(keys.deep_view()),
                None => None,
            },
            pending: Seq::new(self.pending_commands@.len(), |i: int| self.pending_commands@[i]@),
            running: self.running,
        }
    }
}

/// What the dispatcher does after a step, outside the state's lock.
#[derive(Debug, PartialEq, Eq)]
pub enum Effect<C> {
    /// Nothing: the message changed the state at most.
    Nothing,
    /// Hand a sample to the feed callback, with the schema it was read under.
    Feed { time: SystemTime, keys: Vec<String>, values: Vec<FeedValue> },
    /// Run a command's completion with its answer, then send `transmit`, the
    /// message of the command that is now first.
    Complete { on_complete: C, response: ResponseValue, transmit: Option<Message> },
}

/// View of an [`Effect`].
pub enum EffectView<C> {
    Nothing,
    Feed { time: SystemTime, keys: Seq<Seq<char>>, values: Seq<FeedValue> },
    Complete { on_complete: C, response: ResponseView, transmit: Option<MessageView> },
}

impl<C> View for Effect<C> {
    type V = EffectView<C>;

    open spec fn view(&self) -> EffectView<C> {
        match self {
            Effect::Nothing => EffectView::Nothing,
            Effect::Feed { time, keys, values } => EffectView::Feed {
                time: *time,
                keys: keys.deep_view(),
                values: values@,
            },
            Effect::Complete { on_complete, response, transmit } => EffectView::Complete {
                on_complete: *on_complete,
                response: response@,
                transmit: match transmit {
                    Some(m) => Some(m@),
                    None => None,
                },
            },
        }
    }
}

/// The state in which a session starts: no schema, no command, running.
pub open spec fn initial<C>() -> StateView<C> {
    StateView { feed_schema: None, pending: Seq::empty(), running: true }
}

/// The state after `rx` has been dispatched, and what is to be done for it.
///
/// A description replaces the schema. A feed is handed on under the current
/// schema if there is one and the sample has a value for each of its keys;
/// otherwise it is dropped. A response completes the oldest command and
/// puts the next on the wire; with no command waiting it is dropped. A
/// request from the unit is ignored.
pub open spec fn step<C>(s: StateView<C>, rx: RxView) -> (StateView<C>, EffectView<C>) {
    match rx.payload {
        MessageView::Description { keys } => (
            StateView { feed_schema: Some(keys), ..s },
            EffectView::Nothing,
        ),
        MessageView::Feed { values } => match s.feed_schema {
            Some(keys) => if keys.len() == values.len() {
                (s, EffectView::Feed { time: rx.time, keys, values })
            } else {
                (s, EffectView::Nothing)
            },
            None => (s, EffectView::Nothing),
        },
        MessageView::Request(_) => (s, EffectView::Nothing),
        MessageView::Response { id, response } => if s.pending.len() == 0 {
            (s, EffectView::Nothing)
        } else {
            let rest = s.pending.subrange(1, s.pending.len() as int);
            (
                StateView { pending: rest, ..s },
                EffectView::Complete {
                    on_complete: s.pending[0].on_complete,
                    response,
                    transmit: if rest.len() > 0 {
                        Some(rest[0].message)
                    } else {
                        None
                    },
                },
            )
        },
    }
}

/// The state after a command has been queued, and the message to send at
/// once: the command's own where nothing was waiting, none otherwise.
pub open spec fn queued<C>(s: StateView<C>, command: CommandView<C>) -> (
    StateView<C>,
    Option<MessageView>,
) {
    (
        StateView { pending: s.pending.push(command), ..s },
        if s.pending.len() == 0 {
            Some(command.message)
        } else {
            None
        },
    )
}

/// The state after one turn of the dispatch loop, what is to be done for
/// it, and whether the loop ends with it.
pub open spec fn turned<C>(s: StateView<C>, received: Result<RxView, ConnError>) -> (
    StateView<C>,
    EffectView<C>,
    bool,
) {
    match received {
        Ok(rx) => (step(s, rx).0, step(s, rx).1, !s.running),
        Err(ConnError::Timeout) => (s, EffectView::Nothing, !s.running),
        Err(ConnError::Disconnected) => (s, EffectView::Nothing, true),
    }
}

/// What one turn of the dispatch loop comes to.
#[derive(Debug, PartialEq, Eq)]
pub struct Turn<C> {
    /// What to do for the message received, if any.
    pub effect: Effect<C>,
    /// Whether the loop ends after this turn.
    pub exit: bool,
}

impl<C> ConnectionState<C> {
    /// A session in its initial state.
    pub fn new() -> (r: Self)
        ensures
            r@ == initial::<C>(),
    {
        let r = ConnectionState {
            feed_schema: None,
            pending_commands: VecDeque::new(),
            running: true,
        };
        assert(r@.pending =~= Seq::empty());
        r
    }

    /// Dispatches one received message.
    pub fn dispatch(&mut self, rx: RxMessage) -> (effect: Effect<C>)
        ensures
            (final(self)@, effect@) == step(old(self)@, rx@),
    {
        let RxMessage { time, payload } = rx;
        match payload {
            Message::Description { keys } => {
                self.feed_schema = Some(keys);
                Effect::Nothing
            },
            Message::Feed { values } => {
                match &self.feed_schema {
                    Some(keys) => {
                        if keys.len() == values.len() {
                            let keys = clone_keys(keys);
                            Effect::Feed { time, keys, values }
                        } else {
                            Effect::Nothing
                        }
                    },
                    None => Effect::Nothing,
                }
            },
            Message::Request(_) => Effect::Nothing,
            Message::Response { id, response } => {
                match self.pending_commands.pop_front() {
                    None => {
                        Effect::Nothing
                    },
                    Some(command) => {
                        let transmit = if self.pending_commands.len() > 0 {
                            Some(self.pending_commands[0].message.clone())
                        } else {
                            None
                        };
                        assert(self@.pending =~= old(self)@.pending.subrange(
                            1,
                            old(self)@.pending.len() as int,
                        ));
                        Effect::Complete { on_complete: command.on_complete, response, transmit }
                    },
                }
            },
        }
    }

    /// Queues a command. Returns the message to send at once, which is the
    /// command's own if no other was waiting.
    pub fn enqueue(&mut self, message: Message, on_complete: C) -> (transmit: Option<Message>)
        ensures
            final(self)@ == queued(
                old(self)@,
                CommandView { message: message@, on_complete },
            ).0,
            match transmit {
                Some(m) => Some(m@),
                None => None,
            } == queued(old(self)@, CommandView { message: message@, on_complete }).1,
    {
        let transmit = if self.pending_commands.len() == 0 {
            Some(message.clone())
        } else {
            None
        };
        self.pending_commands.push_back(Command { message, on_complete });
        assert(self@.pending =~= old(self)@.pending.push(
            CommandView { message: message@, on_complete },
        ));
        transmit
    }

    /// Asks the dispatch loop to end. Nothing else changes.
    pub fn shutdown(&mut self)
        ensures
            final(self)@ == (StateView { running: false, ..old(self)@ }),
    {
        self.running = false;
    }

    /// Whether the dispatch loop is to go on.
    pub fn is_running(&self) -> (r: bool)
        ensures
            r == self@.running,
    {
        self.running
    }

    /// One turn of the dispatch loop, given how the receive ended. A message
    /// is dispatched; a timeout changes nothing. The loop ends after the turn
    /// if the transport is disconnected or shutdown was asked for.
    pub fn turn(&mut self, received: Result<RxMessage, ConnError>) -> (t: Turn<C>)
        ensures
            (final(self)@, t.effect@, t.exit) == turned(
                old(self)@,
                match received {
                    Ok(rx) => Ok(rx@),
                    Err(e) => Err(e),
                },
            ),
    {
        match received {
            Ok(rx) => {
                let effect = self.dispatch(rx);
                Turn { effect, exit: !self.running }
            },
            Err(ConnError::Timeout) => Turn { effect: Effect::Nothing, exit: !self.running },
            Err(ConnError::Disconnected) => Turn { effect: Effect::Nothing, exit: true },
        }
    }
}

/// The place of the feed callback. It holds one callback at most:
/// registering another replaces the one that is there. The dispatcher takes
/// the callback out to run it without holding a lock, and puts it back
/// afterwards unless another was registered in the meantime.
pub struct FeedSlot<F> {
    pub callback: Option<F>,
}

impl<F> FeedSlot<F> {
    /// An empty slot.
    pub fn new() -> (slot: Self)
        ensures
            slot.callback is None,
    {
        FeedSlot { callback: None }
    }

    /// Registers `f`. Returns the callback that it replaces, for the caller
    /// to discard.
    pub fn register(&mut self, f: F) -> (displaced: Option<F>)
        ensures
            final(self).callback == Some(f),
            displaced == old(self).callback,
    {
        let mut held = Some(f);
        std::mem::swap(&mut self.callback, &mut held);
        held
    }

    /// Takes the callback out, leaving the slot empty.
    pub fn take(&mut self) -> (taken: Option<F>)
        ensures
            final(self).callback is None,
            taken == old(self).callback,
    {
        let mut held = None;
        std::mem::swap(&mut self.callback, &mut held);
        held
    }

    /// Puts back a callback that was taken out. If another has been
    /// registered since, that one stays and `f` is returned, for the caller
    /// to discard.
    pub fn restore(&mut self, f: F) -> (discarded: Option<F>)
        ensures
            old(self).callback is None ==> final(self).callback == Some(f) && discarded is None,
            old(self).callback is Some ==> final(self).callback == old(self).callback && discarded
                == Some(f),
    {
        if self.callback.is_none() {
            self.callback = Some(f);
            None
        } else {
            Some(f)
        }
    }
}

} // verus!
