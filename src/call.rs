//! The life of one call: acquire a connection, send the operation's store
//! command, and end with exactly one outcome, a response or an error.
//!
//! The connection pool and the store are reached by the caller of this
//! module, which performs each [`Action`] and reports what happened as an
//! [`Event`].
use crate::command::{CommandView, Operation, StoreCommand};
use crate::messages::{HashedKeyValues, HashedKeys, Key, KeyValues, Keys};
use crate::reply::{respond, response_for, ReplyView, Response, ResponseView, StoreReply};
use vstd::prelude::*;

verus! {

/// The uniform error a call ends with.
#[derive(Clone, Copy, Debug, PartialEq, Eq, Structural)]
pub enum CacheError {
    /// No connection could be had from the pool within its bound.
    ConnectFailed,
    /// The store failed or rejected the operation's command.
    CommandFailed(Operation),
}

impl CacheError {
    /// The human-readable text of the error.
    pub open spec fn text(self) -> Seq<char> {
        match self {
            CacheError::ConnectFailed => "Failed to connect to Redis DB"@,
            CacheError::CommandFailed(op) => "Failed to use "@ + op.label() + " from Redis DB"@,
        }
    }

    pub fn message(&self) -> (r: String)
        ensures
            r@ == self.text(),
    {
        match self {
            CacheError::ConnectFailed => String::from_str("Failed to connect to Redis DB"),
            CacheError::CommandFailed(op) => {
                let mut text = String::from_str("Failed to use ");
                text.append(op.name());
                text.append(" from Redis DB");
                text
            },
        }
    }
}

/// Where a call stands.
#[derive(Clone, Copy, Debug, PartialEq, Eq, Structural)]
pub enum Stage {
    /// Waiting for a connection from the pool.
    Acquiring,
    /// The command was sent; waiting for the store.
    Awaiting,
    /// The outcome was given; nothing more happens.
    Finished,
}

/// What happened outside since the last step.
#[derive(Debug)]
pub enum Event {
    /// A connection was lent out by the pool.
    Acquired,
    /// The pool gave no connection within its bound.
    AcquireFailed,
    /// The store answered the command.
    Replied(StoreReply),
    /// The store failed or rejected the command.
    StoreFailed,
}

pub enum EventView {
    Acquired,
    AcquireFailed,
    Replied(ReplyView),
    StoreFailed,
}

impl View for Event {
    type V = EventView;

    open spec fn view(&self) -> EventView {
        match self {
            Event::Acquired => EventView::Acquired,
            Event::AcquireFailed => EventView::AcquireFailed,
            Event::Replied(r) => EventView::Replied(r@),
            Event::StoreFailed => EventView::StoreFailed,
        }
    }
}

/// What is to be done next.
#[derive(Debug)]
pub enum Action {
    /// Send the call's command on the connection.
    Send,
    /// End the call with this response.
    Respond(Response),
    /// End the call with this error.
    Fail(CacheError),
    /// Nothing: the event was not one the call was waiting for.
    Wait,
}

pub enum ActionView {
    Send,
    Respond(ResponseView),
    Fail(CacheError),
    Wait,
}

impl View for Action {
    type V = ActionView;

    open spec fn view(&self) -> ActionView {
        match self {
            Action::Send => ActionView::Send,
            Action::Respond(r) => ActionView::Respond(r@),
            Action::Fail(e) => ActionView::Fail(*e),
            Action::Wait => ActionView::Wait,
        }
    }
}

impl ActionView {
    /// Whether the action ends the call.
    pub open spec fn is_outcome(self) -> bool {
        self is Respond || self is Fail
    }
}

/// One call of an operation.
#[derive(Debug)]
pub struct Call {
    pub op: Operation,
    pub command: StoreCommand,
    pub stage: Stage,
}

pub struct CallView {
    pub op: Operation,
    pub command: CommandView,
    pub stage: Stage,
}

impl View for Call {
    type V = CallView;

    open spec fn view(&self) -> CallView {
        CallView { op: self.op, command: self.command@, stage: self.stage }
    }
}

/// A new call of `op` that will send `command`.
pub open spec fn fresh(op: Operation, command: CommandView) -> CallView {
    CallView { op, command, stage: Stage::Acquiring }
}

/// The same call, at another stage.
pub open spec fn at(c: CallView, stage: Stage) -> CallView {
    CallView { op: c.op, command: c.command, stage }
}

/// How a call moves on an event, and what it asks for.
pub open spec fn transition(c: CallView, e: EventView) -> (CallView, ActionView) {
    match c.stage {
        Stage::Acquiring => match e {
            EventView::Acquired => (at(c, Stage::Awaiting), ActionView::Send),
            EventView::AcquireFailed => (
                at(c, Stage::Finished),
                ActionView::Fail(CacheError::ConnectFailed),
            ),
            _ => (c, ActionView::Wait),
        },
        Stage::Awaiting => match e {
            EventView::Replied(r) => (
                at(c, Stage::Finished),
                match response_for(c.op, r) {
                    Some(resp) => ActionView::Respond(resp),
                    None => ActionView::Fail(CacheError::CommandFailed(c.op)),
                },
            ),
            EventView::StoreFailed => (
                at(c, Stage::Finished),
                ActionView::Fail(CacheError::CommandFailed(c.op)),
            ),
            _ => (c, ActionView::Wait),
        },
        Stage::Finished => (c, ActionView::Wait),
    }
}

impl Call {
    /// Writes a batch of keys and values at once.
    pub fn set(req: KeyValues) -> (r: Call)
        ensures
            r@ == fresh(Operation::StrSet, CommandView::MSet(req@)),
    {
        Call { op: Operation::StrSet, command: StoreCommand::MSet(req), stage: Stage::Acquiring }
    }

    /// Reads a batch of keys at once.
    pub fn get(req: Keys) -> (r: Call)
        ensures
            r@ == fresh(Operation::StrGet, CommandView::MGet(req@)),
    {
        Call { op: Operation::StrGet, command: StoreCommand::MGet(req), stage: Stage::Acquiring }
    }

    /// Writes fields of one hash at once.
    pub fn hset(req: HashedKeyValues) -> (r: Call)
        requires
            req.key is Some,
            req.key_values is Some,
        ensures
            r@ == fresh(
                Operation::HashSet,
                CommandView::HMSet(req.key->Some_0@, req.key_values->Some_0@),
            ),
    {
        let key = req.key.unwrap();
        let pairs = req.key_values.unwrap();
        Call {
            op: Operation::HashSet,
            command: StoreCommand::HMSet(key, pairs),
            stage: Stage::Acquiring,
        }
    }

    /// Reads fields of one hash at once.
    pub fn hget(req: HashedKeys) -> (r: Call)
        requires
            req.key is Some,
            req.keys is Some,
        ensures
            r@ == fresh(
                Operation::HashGet,
                CommandView::HMGet(req.key->Some_0@, req.keys->Some_0@),
            ),
    {
        let key = req.key.unwrap();
        let fields = req.keys.unwrap();
        Call {
            op: Operation::HashGet,
            command: StoreCommand::HMGet(key, fields),
            stage: Stage::Acquiring,
        }
    }

    /// Reads every field and value of one hash.
    pub fn hgetall(req: Key) -> (r: Call)
        ensures
            r@ == fresh(Operation::HashGetAll, CommandView::HGetAll(req@)),
    {
        Call {
            op: Operation::HashGetAll,
            command: StoreCommand::HGetAll(req),
            stage: Stage::Acquiring,
        }
    }

    /// Reads the field names of one hash.
    pub fn hkeys(req: Key) -> (r: Call)
        ensures
            r@ == fresh(Operation::HashKeys, CommandView::HKeys(req@)),
    {
        Call { op: Operation::HashKeys, command: StoreCommand::HKeys(req), stage: Stage::Acquiring }
    }

    /// Reads the values of one hash.
    pub fn hvals(req: Key) -> (r: Call)
        ensures
            r@ == fresh(Operation::HashValues, CommandView::HVals(req@)),
    {
        Call {
            op: Operation::HashValues,
            command: StoreCommand::HVals(req),
            stage: Stage::Acquiring,
        }
    }

    /// Moves the call on `event` and says what is to be done next.
    pub fn step(&mut self, event: Event) -> (a: Action)
        ensures
            (final(self)@, a@) == transition(old(self)@, event@),
    {
        match self.stage {
            Stage::Acquiring => match event {
                Event::Acquired => {
                    self.stage = Stage::Awaiting;
                    Action::Send
                },
                Event::AcquireFailed => {
                    self.stage = Stage::Finished;
                    Action::Fail(CacheError::ConnectFailed)
                },
                _ => Action::Wait,
            },
            Stage::Awaiting => match event {
                Event::Replied(reply) => {
                    self.stage = Stage::Finished;
                    match respond(self.op, reply) {
                        Some(resp) => Action::Respond(resp),
                        None => Action::Fail(CacheError::CommandFailed(self.op)),
                    }
                },
                Event::StoreFailed => {
                    self.stage = Stage::Finished;
                    Action::Fail(CacheError::CommandFailed(self.op))
                },
                _ => Action::Wait,
            },
            Stage::Finished => Action::Wait,
        }
    }
}

} // verus!
