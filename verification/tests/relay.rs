use socks4::relay::relay_step;
use socks4::{
    handle_sock4_client, ByteStream, Direction, Endpoint, HandlerAction, Outcome, RelayAction,
    RelaySession, RelayState, Sock4Request,
};

const OUTCOMES: [Outcome; 2] = [Outcome::Succeeded, Outcome::Failed];

#[test]
fn session_starts_with_a_copy_each_way() {
    let (session, upload, download) = RelaySession::start();
    assert_eq!(session.upload, RelayState::Running);
    assert_eq!(session.download, RelayState::Running);
    assert_eq!(upload, RelayAction::Copy { from: Endpoint::Client, to: Endpoint::Destination });
    assert_eq!(download, RelayAction::Copy { from: Endpoint::Destination, to: Endpoint::Client });
    assert!(!session.finished());
}

#[test]
fn upload_closes_client_read_then_destination_write() {
    let (mut session, _, _) = RelaySession::start();
    assert_eq!(
        session.step(Direction::Upload, Outcome::Succeeded),
        Some(RelayAction::ShutdownRead(Endpoint::Client))
    );
    assert_eq!(session.upload, RelayState::ClosingRead);
    assert_eq!(
        session.step(Direction::Upload, Outcome::Succeeded),
        Some(RelayAction::ShutdownWrite(Endpoint::Destination))
    );
    assert_eq!(session.upload, RelayState::ClosingWrite);
    assert_eq!(session.step(Direction::Upload, Outcome::Succeeded), None);
    assert_eq!(session.upload, RelayState::Terminated);
    assert_eq!(session.download, RelayState::Running);
    assert!(!session.finished());
}

#[test]
fn download_closes_destination_read_then_client_write() {
    let (mut session, _, _) = RelaySession::start();
    assert_eq!(
        session.step(Direction::Download, Outcome::Failed),
        Some(RelayAction::ShutdownRead(Endpoint::Destination))
    );
    assert_eq!(
        session.step(Direction::Download, Outcome::Failed),
        Some(RelayAction::ShutdownWrite(Endpoint::Client))
    );
    assert_eq!(session.step(Direction::Download, Outcome::Failed), None);
    assert_eq!(session.download, RelayState::Terminated);
    assert_eq!(session.upload, RelayState::Running);
}

#[test]
fn how_an_action_went_changes_nothing() {
    let states = [
        RelayState::Running,
        RelayState::ClosingRead,
        RelayState::ClosingWrite,
        RelayState::Terminated,
    ];
    for direction in [Direction::Upload, Direction::Download] {
        for state in states {
            assert_eq!(
                relay_step(direction, Some((state, Outcome::Succeeded))),
                relay_step(direction, Some((state, Outcome::Failed)))
            );
        }
    }
}

#[test]
fn one_direction_ends_without_ending_the_other() {
    let states = [
        RelayState::Running,
        RelayState::ClosingRead,
        RelayState::ClosingWrite,
        RelayState::Terminated,
    ];
    for upload in states {
        for download in states {
            for outcome in OUTCOMES {
                let mut session = RelaySession { upload, download };
                session.step(Direction::Upload, outcome);
                assert_eq!(session.download, download);
                let mut session = RelaySession { upload, download };
                session.step(Direction::Download, outcome);
                assert_eq!(session.upload, upload);
            }
        }
    }
}

#[test]
fn every_task_is_over_after_three_steps() {
    for direction in [Direction::Upload, Direction::Download] {
        for first in [
            RelayState::Running,
            RelayState::ClosingRead,
            RelayState::ClosingWrite,
            RelayState::Terminated,
        ] {
            let mut state = first;
            for _ in 0..3 {
                state = relay_step(direction, Some((state, Outcome::Failed))).0;
            }
            assert_eq!(state, RelayState::Terminated);
            assert_eq!(relay_step(direction, Some((state, Outcome::Succeeded))), (state, None));
        }
    }
}

#[test]
fn session_is_finished_when_both_tasks_are_over() {
    let (mut session, _, _) = RelaySession::start();
    for _ in 0..3 {
        session.step(Direction::Download, Outcome::Succeeded);
    }
    assert!(!session.finished());
    for _ in 0..2 {
        session.step(Direction::Upload, Outcome::Succeeded);
    }
    assert!(!session.finished());
    session.step(Direction::Upload, Outcome::Succeeded);
    assert!(session.finished());
}

/// The halves of the two connections that an action works on, as pairs of
/// the connection and whether it is the reading half.
fn halves(action: RelayAction) -> Vec<(Endpoint, bool)> {
    match action {
        RelayAction::Copy { from, to } => vec![(from, true), (to, false)],
        RelayAction::ShutdownRead(endpoint) => vec![(endpoint, true)],
        RelayAction::ShutdownWrite(endpoint) => vec![(endpoint, false)],
    }
}

fn actions_of(direction: Direction) -> Vec<RelayAction> {
    let mut actions = Vec::new();
    let (mut state, mut asked) = relay_step(direction, None);
    while let Some(action) = asked {
        actions.push(action);
        (state, asked) = relay_step(direction, Some((state, Outcome::Succeeded)));
    }
    assert_eq!(state, RelayState::Terminated);
    actions
}

#[test]
fn a_task_begins_with_its_copy() {
    assert_eq!(
        relay_step(Direction::Upload, None),
        (
            RelayState::Running,
            Some(RelayAction::Copy { from: Endpoint::Client, to: Endpoint::Destination })
        )
    );
    assert_eq!(
        relay_step(Direction::Download, None),
        (
            RelayState::Running,
            Some(RelayAction::Copy { from: Endpoint::Destination, to: Endpoint::Client })
        )
    );
    let (_, upload, download) = RelaySession::start();
    assert_eq!(Some(upload), relay_step(Direction::Upload, None).1);
    assert_eq!(Some(download), relay_step(Direction::Download, None).1);
}

#[test]
fn the_two_tasks_share_no_half_of_a_connection() {
    let upload = actions_of(Direction::Upload);
    let download = actions_of(Direction::Download);
    assert_eq!(upload.len(), 3);
    assert_eq!(download.len(), 3);
    for up in &upload {
        for half in halves(*up) {
            assert!(half == (Endpoint::Client, true) || half == (Endpoint::Destination, false));
        }
        for down in &download {
            for half in halves(*down) {
                assert!(half == (Endpoint::Destination, true) || half == (Endpoint::Client, false));
                assert!(!halves(*up).contains(&half));
            }
        }
    }
}

/// One end of a connection held in memory: what the peer has sent and not
/// yet been read, and which halves are closed.
#[derive(Default)]
struct Socket {
    inbox: Vec<u8>,
    read_closed: bool,
    write_closed: bool,
}

/// A client, a destination that echoes, and the proxy between them as a
/// driver that does what the library asks for.
struct World {
    client_sends: Vec<u8>,
    client_gets: Vec<u8>,
    destination_gets: Vec<u8>,
    client_side: Socket,
    destination_side: Socket,
}

impl World {
    fn socket(&mut self, endpoint: Endpoint) -> &mut Socket {
        match endpoint {
            Endpoint::Client => &mut self.client_side,
            Endpoint::Destination => &mut self.destination_side,
        }
    }

    fn perform(&mut self, action: RelayAction) {
        match action {
            RelayAction::Copy { from, to } => {
                let bytes = std::mem::take(&mut self.socket(from).inbox);
                match to {
                    Endpoint::Destination => {
                        self.destination_gets.extend_from_slice(&bytes);
                        self.destination_side.inbox.extend_from_slice(&bytes);
                    }
                    Endpoint::Client => self.client_gets.extend_from_slice(&bytes),
                }
            }
            RelayAction::ShutdownRead(endpoint) => self.socket(endpoint).read_closed = true,
            RelayAction::ShutdownWrite(endpoint) => self.socket(endpoint).write_closed = true,
        }
    }
}

#[test]
fn ping_is_echoed_and_the_half_close_reaches_the_destination() {
    let mut wire = vec![0x04, 0x01, 0x00, 0x50, 0x7F, 0x00, 0x00, 0x01];
    wire.push(0);
    let mut stream = ByteStream::new(wire);
    let req = Sock4Request::deserialize(&mut stream).expect("a request");
    assert_eq!(req.command(), 1);
    assert_eq!(req.dst_port(), 80);
    assert_eq!(req.dst_ip(), [127, 0, 0, 1]);

    let mut world = World {
        client_sends: b"ping".to_vec(),
        client_gets: Vec::new(),
        destination_gets: Vec::new(),
        client_side: Socket::default(),
        destination_side: Socket::default(),
    };

    let (mut state, mut asked) = handle_sock4_client(&req, None);
    assert_eq!(asked, Some(HandlerAction::Dial { ip: [127, 0, 0, 1], port: 80 }));
    let mut relay_started = false;
    while let Some(action) = asked {
        match action {
            HandlerAction::Dial { .. } | HandlerAction::DuplicateHandles => {}
            HandlerAction::SendReply { bytes } => {
                assert!(!relay_started);
                world.client_gets.extend_from_slice(&bytes);
            }
            HandlerAction::StartRelay => relay_started = true,
        }
        (state, asked) = handle_sock4_client(&req, Some((state, Outcome::Succeeded)));
    }
    assert_eq!(state.result(), Some(Ok(())));
    assert!(relay_started);
    assert_eq!(world.client_gets, [0x00, 0x5A, 0, 0, 0, 0, 0, 0]);
    world.client_gets.clear();

    let (mut session, upload, download) = RelaySession::start();
    world.client_side.inbox = std::mem::take(&mut world.client_sends);
    world.perform(upload);
    assert_eq!(world.destination_gets, b"ping");
    world.perform(download);
    assert_eq!(world.client_gets, b"ping");

    // The client closes its writing side: the upload sees the end of the
    // stream and its copy ends.
    let mut asked = session.step(Direction::Upload, Outcome::Succeeded);
    while let Some(action) = asked {
        world.perform(action);
        asked = session.step(Direction::Upload, Outcome::Succeeded);
    }
    assert!(world.client_side.read_closed);
    assert!(world.destination_side.write_closed);
    assert!(!world.destination_side.read_closed);
    assert!(!world.client_side.write_closed);
    assert_eq!(session.upload, RelayState::Terminated);
    assert_eq!(session.download, RelayState::Running);
    assert!(!session.finished());
}
