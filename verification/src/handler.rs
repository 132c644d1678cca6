//! The decisions of the connection handler.
//!
//! The handler never touches a socket. It tells its driver what to do next,
//! the driver does it and reports how it went, and from that the handler
//! decides the next step:
//!
//! ```text
//! Dialing --ok--> Replying --ok--> Duplicating --ok--> Relaying
//!    |               |                 |
//!   fail            fail              fail
//!    v               v                 v
//! Failed(Dial)   Failed(Write)   Failed(Duplicate)
//! ```

use crate::byte_order::ByteOrder;
use crate::error::{Outcome, Socks4Error};
use crate::reply::{granted_reply_bytes, lemma_granted_wire, Sock4Reply, Socks4ReplyCode};
use crate::request::{RequestView, Sock4Request};
use vstd::prelude::*;

verus! {

/// What the handler asks its driver to do.
#[derive(Clone, Copy, Debug, PartialEq, Eq)]
pub enum HandlerAction {
    /// Open a connection to this address and port.
    Dial { ip: [u8; 4], port: u16 },
    /// Write these eight bytes to the client, all of them.
    SendReply { bytes: [u8; 8] },
    /// Get two handles to the client connection and two to the destination
    /// connection, so that each relay task owns the side it reads and the
    /// side it writes.
    DuplicateHandles,
    /// Start the upload task and the download task, and return at once.
    StartRelay,
}

/// An action of the handler, as plain values.
pub enum ActionView {
    /// Open a connection to the address of these four octets, at this port.
    Dial { ip: Seq<u8>, port: u16 },
    /// Write these bytes to the client.
    SendReply { bytes: Seq<u8> },
    /// Get the handles that the two relay tasks need.
    DuplicateHandles,
    /// Start both relay tasks.
    StartRelay,
}

impl View for HandlerAction {
    type V = ActionView;

    open spec fn view(&self) -> ActionView {
        match *self {
            HandlerAction::Dial { ip, port } => ActionView::Dial { ip: ip@, port },
            HandlerAction::SendReply { bytes } => ActionView::SendReply { bytes: bytes@ },
            HandlerAction::DuplicateHandles => ActionView::DuplicateHandles,
            HandlerAction::StartRelay => ActionView::StartRelay,
        }
    }
}

/// Where the handling of one connection stands.
#[derive(Clone, Copy, Debug, PartialEq, Eq, Structural)]
pub enum HandlerState {
    /// The destination is being dialled.
    Dialing,
    /// The destination is connected and the reply is being written.
    Replying,
    /// The reply is out and the connections are being duplicated.
    Duplicating,
    /// Both relay tasks were asked for: handling has ended well. From here
    /// on the connection lives as long as the two tasks do.
    Relaying,
    /// Handling has ended with this error.
    Failed(Socks4Error),
}

/// Everything that the handler asks for while all goes well, in order: the
/// dial, the one reply, the handles, the relay.
pub open spec fn handler_plan(req: RequestView) -> Seq<ActionView> {
    seq![
        ActionView::Dial { ip: req.dst_ip, port: req.dst_port },
        ActionView::SendReply { bytes: granted_reply_bytes() },
        ActionView::DuplicateHandles,
        ActionView::StartRelay,
    ]
}

impl HandlerState {
    /// Whether handling has ended, well or not.
    pub open spec fn is_final(self) -> bool {
        self is Relaying || self is Failed
    }

    /// How many actions the handler has asked for by the time it is in this
    /// state. No step leads to a failure by a framing error: a request that
    /// could not be decoded never comes to the handler.
    pub open spec fn issued(self) -> nat {
        match self {
            HandlerState::Dialing => 1,
            HandlerState::Replying => 2,
            HandlerState::Duplicating => 3,
            HandlerState::Relaying => 4,
            HandlerState::Failed(Socks4Error::Dial) => 1,
            HandlerState::Failed(Socks4Error::Write) => 2,
            HandlerState::Failed(Socks4Error::Duplicate) => 3,
            HandlerState::Failed(Socks4Error::Framing) => 0,
        }
    }

    /// The error that ends handling when the action of this state fails.
    pub open spec fn failure(self) -> Socks4Error
        recommends
            !self.is_final(),
    {
        match self {
            HandlerState::Dialing => Socks4Error::Dial,
            HandlerState::Replying => Socks4Error::Write,
            _ => Socks4Error::Duplicate,
        }
    }

    /// The state that follows this one once its action has gone as
    /// `outcome` says. A final state stays as it is.
    pub open spec fn after(self, outcome: Outcome) -> HandlerState {
        if self.is_final() {
            self
        } else if outcome is Failed {
            HandlerState::Failed(self.failure())
        } else {
            match self {
                HandlerState::Dialing => HandlerState::Replying,
                HandlerState::Replying => HandlerState::Duplicating,
                _ => HandlerState::Relaying,
            }
        }
    }

    /// What the handler asks for when a step brings it into this state: the
    /// reply after the dial, the handles after the reply, the relay after
    /// the handles, and nothing when it has failed.
    pub open spec fn asks(self) -> Option<ActionView> {
        match self {
            HandlerState::Replying => Some(ActionView::SendReply { bytes: granted_reply_bytes() }),
            HandlerState::Duplicating => Some(ActionView::DuplicateHandles),
            HandlerState::Relaying => Some(ActionView::StartRelay),
            _ => None,
        }
    }

    /// What one step of the handler comes to: the next state, and what it
    /// asks for. Once handling has ended a step changes nothing and asks
    /// for nothing.
    pub open spec fn step(self, outcome: Outcome) -> (HandlerState, Option<ActionView>) {
        if self.is_final() {
            (self, None)
        } else {
            (self.after(outcome), self.after(outcome).asks())
        }
    }

    /// What handling has come to: nothing while it is under way, success
    /// once the relay was asked for, else the error.
    pub fn result(&self) -> (result: Option<Result<(), Socks4Error>>)
        ensures
            result is Some <==> self.is_final(),
            result == Some(Ok::<(), Socks4Error>(())) <==> *self == HandlerState::Relaying,
            forall|error: Socks4Error|
                result == Some(Err::<(), Socks4Error>(error)) <==> *self == HandlerState::Failed(
                    error,
                ),
    {
        match self {
            HandlerState::Relaying => Some(Ok(())),
            HandlerState::Failed(error) => Some(Err(*error)),
            _ => None,
        }
    }
}

/// What the handler decides next for a request: the state it goes to and
/// what it asks for. With nothing done yet it asks for the dial of the
/// destination that the request names; after that it goes by its state and
/// by how the last action went.
pub open spec fn handler_step(req: RequestView, last: Option<(HandlerState, Outcome)>) -> (
    HandlerState,
    Option<ActionView>,
) {
    match last {
        None => (
            HandlerState::Dialing,
            Some(ActionView::Dial { ip: req.dst_ip, port: req.dst_port }),
        ),
        Some((state, outcome)) => state.step(outcome),
    }
}

/// Handles a request, one step at a time.
///
/// The first call, with `None`, begins: it asks for the dial. Every later
/// call takes the state that the call before gave and how the action went
/// that it asked for, and decides what comes next, until it asks for
/// nothing more.
///
/// A dial that fails ends handling with a dial error, and the client gets no
/// reply. After a dial that went well the client is sent the granted reply,
/// with port and address left at zero. Once that is written in full the
/// connections are duplicated, and then both relay tasks are started; the
/// handler does not wait for them. The command of the request is never
/// looked at: every request is served as a connect.
pub fn handle_sock4_client(req: &Sock4Request, last: Option<(HandlerState, Outcome)>) -> (next: (
    HandlerState,
    Option<HandlerAction>,
))
    ensures
        next.0 == handler_step(req@, last).0,
        match next.1 {
            Some(action) => handler_step(req@, last).1 == Some(action@),
            None => handler_step(req@, last).1 is None,
        },
{
    match last {
        None => (
            HandlerState::Dialing,
            Some(HandlerAction::Dial { ip: req.dst_ip(), port: req.dst_port() }),
        ),
        Some((HandlerState::Dialing, Outcome::Succeeded)) => {
            let bytes: [u8; 8] = Sock4Reply::granted().encode(ByteOrder::BigEndian);
            proof {
                lemma_granted_wire(ByteOrder::BigEndian);
            }
            (HandlerState::Replying, Some(HandlerAction::SendReply { bytes }))
        },
        Some((HandlerState::Dialing, Outcome::Failed)) => (
            HandlerState::Failed(Socks4Error::Dial),
            None,
        ),
        Some((HandlerState::Replying, Outcome::Succeeded)) => (
            HandlerState::Duplicating,
            Some(HandlerAction::DuplicateHandles),
        ),
        Some((HandlerState::Replying, Outcome::Failed)) => (
            HandlerState::Failed(Socks4Error::Write),
            None,
        ),
        Some((HandlerState::Duplicating, Outcome::Succeeded)) => (
            HandlerState::Relaying,
            Some(HandlerAction::StartRelay),
        ),
        Some((HandlerState::Duplicating, Outcome::Failed)) => (
            HandlerState::Failed(Socks4Error::Duplicate),
            None,
        ),
        Some((HandlerState::Relaying, _)) => (HandlerState::Relaying, None),
        Some((HandlerState::Failed(error), _)) => (HandlerState::Failed(error), None),
    }
}

/// The state of the handler, and all that it has asked for, after it has
/// begun and the driver has reported `outcomes` one after another, the first
/// of them for the dial.
pub open spec fn handler_run(req: RequestView, outcomes: Seq<Outcome>) -> (
    HandlerState,
    Seq<ActionView>,
)
    decreases outcomes.len(),
{
    let (last, asked_before) = if outcomes.len() == 0 {
        (None, Seq::empty())
    } else {
        let (state, actions) = handler_run(req, outcomes.drop_last());
        (Some((state, outcomes.last())), actions)
    };
    match handler_step(req, last) {
        (next, Some(asked)) => (next, asked_before.push(asked)),
        (next, None) => (next, asked_before),
    }
}

/// Whatever the driver reports, the handler keeps to its plan: what it has
/// asked for is the beginning of the plan, as far as its state says, and it
/// never ends in an error that is not its own.
pub proof fn lemma_handler_follows_plan(req: RequestView, outcomes: Seq<Outcome>)
    ensures
        1 <= handler_run(req, outcomes).0.issued() <= 4,
        handler_run(req, outcomes).1 == handler_plan(req).take(
            handler_run(req, outcomes).0.issued() as int,
        ),
    decreases outcomes.len(),
{
    if outcomes.len() > 0 {
        lemma_handler_follows_plan(req, outcomes.drop_last());
    }
}

/// When the dial goes well the client is sent exactly one reply, whatever
/// happens afterwards: the eight bytes of the granted reply, asked for right
/// after the dial. The relay is not started before that reply was asked for
/// and reported as written.
pub proof fn lemma_one_reply_before_relay(req: RequestView, outcomes: Seq<Outcome>)
    requires
        outcomes.len() > 0,
        outcomes[0] is Succeeded,
    ensures
        ({
            let actions = handler_run(req, outcomes).1;
            &&& actions.len() >= 2
            &&& actions[1] == ActionView::SendReply { bytes: granted_reply_bytes() }
            &&& granted_reply_bytes().len() == 8
            &&& forall|order: ByteOrder|
                (#[trigger] Sock4Reply::parse(granted_reply_bytes(), order)).unwrap().reply_code
                    == Socks4ReplyCode::RequestGranted
            &&& forall|i: int| 0 <= i < actions.len() && actions[i] is SendReply ==> i == 1
            &&& forall|i: int|
                0 <= i < actions.len() && actions[i] is StartRelay ==> i == 3 && outcomes.len() >= 3
                    && outcomes[1] is Succeeded
        }),
{
    lemma_handler_follows_plan(req, outcomes);
    lemma_run_after_dial(req, outcomes);
    assert forall|order: ByteOrder|
        (#[trigger] Sock4Reply::parse(granted_reply_bytes(), order)).unwrap().reply_code
            == Socks4ReplyCode::RequestGranted by {
        lemma_granted_wire(order);
    }
}

/// When the dial fails, handling ends with a dial error and the client is
/// sent nothing: the dial is all that the handler ever asked for.
pub proof fn lemma_failed_dial_sends_nothing(req: RequestView, outcomes: Seq<Outcome>)
    requires
        outcomes.len() > 0,
        outcomes[0] is Failed,
    ensures
        handler_run(req, outcomes).0 == HandlerState::Failed(Socks4Error::Dial),
        handler_run(req, outcomes).1 == seq![
            ActionView::Dial { ip: req.dst_ip, port: req.dst_port },
        ],
    decreases outcomes.len(),
{
    let dial = ActionView::Dial { ip: req.dst_ip, port: req.dst_port };
    if outcomes.len() > 1 {
        lemma_failed_dial_sends_nothing(req, outcomes.drop_last());
    } else {
        assert(handler_run(req, outcomes.drop_last()) == (HandlerState::Dialing, seq![dial]));
    }
}

/// How far a run has come tells how many actions went well: past the dial
/// after one report, and at the relay only after the reply was written and
/// the handles were made.
proof fn lemma_run_after_dial(req: RequestView, outcomes: Seq<Outcome>)
    requires
        outcomes.len() > 0,
        outcomes[0] is Succeeded,
    ensures
        handler_run(req, outcomes).0.issued() >= 2,
        handler_run(req, outcomes).0.issued() >= 3 ==> outcomes.len() >= 2 && outcomes[1]
            is Succeeded,
        handler_run(req, outcomes).0.issued() >= 4 ==> outcomes.len() >= 3,
    decreases outcomes.len(),
{
    lemma_handler_follows_plan(req, outcomes.drop_last());
    if outcomes.len() > 1 {
        lemma_run_after_dial(req, outcomes.drop_last());
        if outcomes.len() > 2 {
            lemma_run_after_dial(req, outcomes.drop_last().drop_last());
        }
    }
}

} // verus!
