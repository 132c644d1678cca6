//! The two directions of a relay and how each of them ends.
//!
//! A relay session is two tasks that share nothing but the sockets. Each
//! copies one way until its source is exhausted or fails, then closes the
//! half it read from and the half it wrote to, and is done:
//!
//! ```text
//! Running --> ClosingRead --> ClosingWrite --> Terminated
//! ```
//!
//! Nothing that the driver reports changes that course: the end of the copy
//! is the same whether it came by end of stream or by an error, and a
//! half-close that fails is passed over.

use crate::error::Outcome;
use vstd::prelude::*;

verus! {

/// One of the two connections of a relay session.
#[derive(Clone, Copy, Debug, PartialEq, Eq, Structural)]
pub enum Endpoint {
    /// The connection to the client that sent the request.
    Client,
    /// The connection to the destination that the request named.
    Destination,
}

/// One of the two halves of a connection. Each can be closed without the
/// other.
#[derive(Clone, Copy, Debug, PartialEq, Eq, Structural)]
pub enum Half {
    /// The half that bytes are read from.
    Read,
    /// The half that bytes are written to.
    Write,
}

/// One of the two ways in which bytes travel.
#[derive(Clone, Copy, Debug, PartialEq, Eq, Structural)]
pub enum Direction {
    /// From the client to the destination.
    Upload,
    /// From the destination to the client.
    Download,
}

impl Direction {
    /// The connection that this direction reads from.
    pub open spec fn source(self) -> Endpoint {
        match self {
            Direction::Upload => Endpoint::Client,
            Direction::Download => Endpoint::Destination,
        }
    }

    /// The connection that this direction writes to: the peer of its source.
    pub open spec fn sink(self) -> Endpoint {
        match self {
            Direction::Upload => Endpoint::Destination,
            Direction::Download => Endpoint::Client,
        }
    }

    /// The other direction.
    pub open spec fn opposite(self) -> Direction {
        match self {
            Direction::Upload => Direction::Download,
            Direction::Download => Direction::Upload,
        }
    }
}

/// What a relay task asks its driver to do.
#[derive(Clone, Copy, Debug, PartialEq, Eq, Structural)]
pub enum RelayAction {
    /// Copy bytes from one connection to the other, each byte once and in
    /// the order in which they arrive, until the source is exhausted or
    /// either side fails.
    Copy { from: Endpoint, to: Endpoint },
    /// Close the reading half of this connection.
    ShutdownRead(Endpoint),
    /// Close the writing half of this connection.
    ShutdownWrite(Endpoint),
}

impl RelayAction {
    /// The halves of the connections that this action works on: a copy
    /// reads from one connection and writes to the other, and a shutdown
    /// closes the half that it names.
    pub open spec fn halves(self) -> Set<(Endpoint, Half)> {
        match self {
            RelayAction::Copy { from, to } => set![(from, Half::Read), (to, Half::Write)],
            RelayAction::ShutdownRead(endpoint) => set![(endpoint, Half::Read)],
            RelayAction::ShutdownWrite(endpoint) => set![(endpoint, Half::Write)],
        }
    }
}

/// Where one direction of a relay stands.
#[derive(Clone, Copy, Debug, PartialEq, Eq, Structural)]
pub enum RelayState {
    /// Bytes are being copied.
    Running,
    /// The copy has ended and the reading half of the source is being
    /// closed.
    ClosingRead,
    /// The writing half of the sink is being closed.
    ClosingWrite,
    /// The task is over.
    Terminated,
}

impl RelayState {
    /// The state that follows this one when its action has ended, however
    /// it ended.
    pub open spec fn next(self) -> RelayState {
        match self {
            RelayState::Running => RelayState::ClosingRead,
            RelayState::ClosingRead => RelayState::ClosingWrite,
            RelayState::ClosingWrite => RelayState::Terminated,
            RelayState::Terminated => RelayState::Terminated,
        }
    }

    /// What a task of the given direction has its driver do while it is in
    /// this state; nothing once it is over.
    pub open spec fn action(self, direction: Direction) -> Option<RelayAction> {
        match self {
            RelayState::Running => Some(
                RelayAction::Copy { from: direction.source(), to: direction.sink() },
            ),
            RelayState::ClosingRead => Some(RelayAction::ShutdownRead(direction.source())),
            RelayState::ClosingWrite => Some(RelayAction::ShutdownWrite(direction.sink())),
            RelayState::Terminated => None,
        }
    }

    /// The state of one direction after `steps` of its actions have ended.
    pub open spec fn advanced(self, steps: nat) -> RelayState
        decreases steps,
    {
        if steps == 0 {
            self
        } else {
            self.next().advanced((steps - 1) as nat)
        }
    }
}

/// The relay of one connection: its two directions, each on its own course.
#[derive(Clone, Copy, Debug, PartialEq, Eq, Structural)]
pub struct RelaySession {
    /// The direction from the client to the destination.
    pub upload: RelayState,
    /// The direction from the destination to the client.
    pub download: RelayState,
}

impl RelaySession {
    /// The state of one of the two directions.
    pub open spec fn state(self, direction: Direction) -> RelayState {
        match direction {
            Direction::Upload => self.upload,
            Direction::Download => self.download,
        }
    }

    /// The session with one direction moved on by one step and the other
    /// left alone.
    pub open spec fn stepped(self, direction: Direction) -> RelaySession {
        match direction {
            Direction::Upload => RelaySession { upload: self.upload.next(), ..self },
            Direction::Download => RelaySession { download: self.download.next(), ..self },
        }
    }

    /// Whether both directions are over.
    pub open spec fn is_terminated(self) -> bool {
        self.upload is Terminated && self.download is Terminated
    }

    /// A new session, with the first thing that each of its two tasks
    /// does: the upload copies from the client to the destination, the
    /// download the other way.
    pub fn start() -> (begin: (RelaySession, RelayAction, RelayAction))
        ensures
            begin.0 == (RelaySession { upload: RelayState::Running, download: RelayState::Running }),
            Some(begin.1) == begin.0.upload.action(Direction::Upload),
            Some(begin.2) == begin.0.download.action(Direction::Download),
    {
        (
            RelaySession { upload: RelayState::Running, download: RelayState::Running },
            RelayAction::Copy { from: Endpoint::Client, to: Endpoint::Destination },
            RelayAction::Copy { from: Endpoint::Destination, to: Endpoint::Client },
        )
    }

    /// Takes the report that the action of one direction has ended, moves
    /// that direction on and says what its task does next.
    ///
    /// The other direction is not touched. How the action went makes no
    /// difference: when the copy ends, for whatever reason, the reading half
    /// of its source is closed and then the writing half of its sink.
    pub fn step(&mut self, direction: Direction, outcome: Outcome) -> (action: Option<RelayAction>)
        ensures
            *final(self) == old(self).stepped(direction),
            action == final(self).state(direction).action(direction),
    {
        match direction {
            Direction::Upload => {
                let (next, action) = relay_step(direction, Some((self.upload, outcome)));
                self.upload = next;
                action
            },
            Direction::Download => {
                let (next, action) = relay_step(direction, Some((self.download, outcome)));
                self.download = next;
                action
            },
        }
    }

    /// Whether both tasks are over, so that nothing holds the connection any
    /// more.
    pub fn finished(&self) -> (done: bool)
        ensures
            done == self.is_terminated(),
    {
        matches!(self.upload, RelayState::Terminated) && matches!(
            self.download,
            RelayState::Terminated
        )
    }
}

/// What a relay task does next: the state it goes to and what it asks for.
/// With nothing done yet it begins to copy; after that it moves on by one
/// state whenever its action has ended, however that went.
pub open spec fn relay_next(direction: Direction, last: Option<(RelayState, Outcome)>) -> (
    RelayState,
    Option<RelayAction>,
) {
    let state = match last {
        None => RelayState::Running,
        Some((state, _)) => state.next(),
    };
    (state, state.action(direction))
}

/// Runs one relay task, one step at a time.
///
/// The first call, with `None`, begins: it asks for the copy. Every later
/// call takes the state that the call before gave and the report that its
/// action has ended, and says what the task does next, until it asks for
/// nothing more.
pub fn relay_step(direction: Direction, last: Option<(RelayState, Outcome)>) -> (next: (
    RelayState,
    Option<RelayAction>,
))
    ensures
        next == relay_next(direction, last),
{
    let (source, sink): (Endpoint, Endpoint) = match direction {
        Direction::Upload => (Endpoint::Client, Endpoint::Destination),
        Direction::Download => (Endpoint::Destination, Endpoint::Client),
    };
    match last {
        None => (RelayState::Running, Some(RelayAction::Copy { from: source, to: sink })),
        Some((RelayState::Running, _)) => (
            RelayState::ClosingRead,
            Some(RelayAction::ShutdownRead(source)),
        ),
        Some((RelayState::ClosingRead, _)) => (
            RelayState::ClosingWrite,
            Some(RelayAction::ShutdownWrite(sink)),
        ),
        Some((RelayState::ClosingWrite, _)) => (RelayState::Terminated, None),
        Some((RelayState::Terminated, _)) => (RelayState::Terminated, None),
    }
}

/// A half-close travels to the peer and stops there. When the copy of one
/// direction ends, the task closes the reading half of its source and then
/// the writing half of the other connection, so that the peer sees the end
/// of the stream. The opposite direction stays where it was through all of
/// it.
pub proof fn lemma_half_close_propagates(session: RelaySession, direction: Direction)
    requires
        session.state(direction) is Running,
    ensures
        ({
            let closing = session.stepped(direction);
            let closed = closing.stepped(direction);
            let over = closed.stepped(direction);
            &&& closing.state(direction).action(direction) == Some(
                RelayAction::ShutdownRead(direction.source()),
            )
            &&& closed.state(direction).action(direction) == Some(
                RelayAction::ShutdownWrite(direction.sink()),
            )
            &&& direction.sink() == direction.opposite().source()
            &&& over.state(direction) is Terminated
            &&& closing.state(direction.opposite()) == session.state(direction.opposite())
            &&& closed.state(direction.opposite()) == session.state(direction.opposite())
            &&& over.state(direction.opposite()) == session.state(direction.opposite())
        }),
{
}

/// The two directions never touch each other: a step of one leaves the
/// state of the other as it was, in every session.
pub proof fn lemma_directions_independent(session: RelaySession, direction: Direction)
    ensures
        session.stepped(direction).state(direction) == session.state(direction).next(),
        session.stepped(direction).state(direction.opposite()) == session.state(
            direction.opposite(),
        ),
{
}

/// The two tasks share no half of a connection. Whatever the upload does, it
/// does to the reading half of the client and the writing half of the
/// destination; whatever the download does, it does to the other two halves.
/// So neither task can disturb the other, wherever each of them stands.
pub proof fn lemma_tasks_share_no_half(upload: RelayState, download: RelayState)
    requires
        upload.action(Direction::Upload) is Some,
        download.action(Direction::Download) is Some,
    ensures
        upload.action(Direction::Upload).unwrap().halves().subset_of(
            set![(Endpoint::Client, Half::Read), (Endpoint::Destination, Half::Write)],
        ),
        download.action(Direction::Download).unwrap().halves().subset_of(
            set![(Endpoint::Destination, Half::Read), (Endpoint::Client, Half::Write)],
        ),
        upload.action(Direction::Upload).unwrap().halves().disjoint(
            download.action(Direction::Download).unwrap().halves(),
        ),
{
}

/// Every task ends: from wherever it stands, a direction is over once three
/// of its actions have ended, and it stays over.
pub proof fn lemma_relay_terminates(state: RelayState, steps: nat)
    requires
        steps >= 3,
    ensures
        state.advanced(steps) is Terminated,
    decreases steps,
{
    reveal_with_fuel(RelayState::advanced, 4);
    if steps > 3 {
        lemma_relay_terminates(state.next(), (steps - 1) as nat);
    }
}

} // verus!
