use socks4::{
    handle_sock4_client, ByteStream, HandlerAction, HandlerState, Outcome, Sock4Reply,
    Sock4Request, Socks4Error, Socks4ReplyCode,
};

const GRANTED: [u8; 8] = [0x00, 0x5A, 0x00, 0x00, 0x00, 0x00, 0x00, 0x00];

fn request(bytes: &[u8]) -> Sock4Request {
    Sock4Request::deserialize(&mut ByteStream::new(bytes.to_vec())).expect("a request")
}

fn connect_localhost() -> Sock4Request {
    request(&[0x04, 0x01, 0x00, 0x50, 0x7F, 0x00, 0x00, 0x01])
}

/// Runs the handler against the reports of a driver and gives back the state
/// it ends in and all that it asked for.
fn run(req: &Sock4Request, outcomes: &[Outcome]) -> (HandlerState, Vec<HandlerAction>) {
    let (mut state, first) = handle_sock4_client(req, None);
    let mut actions: Vec<HandlerAction> = first.into_iter().collect();
    for outcome in outcomes {
        let (next, action) = handle_sock4_client(req, Some((state, *outcome)));
        state = next;
        actions.extend(action);
    }
    (state, actions)
}

fn all_reports(len: usize) -> Vec<Vec<Outcome>> {
    (0..1usize << len)
        .map(|bits| {
            (0..len)
                .map(|i| if bits >> i & 1 == 0 { Outcome::Succeeded } else { Outcome::Failed })
                .collect()
        })
        .collect()
}

#[test]
fn handling_begins_with_the_dial() {
    let req = request(&[0x04, 0x01, 0x1F, 0x90, 10, 1, 2, 3]);
    let (state, action) = handle_sock4_client(&req, None);
    assert_eq!(state, HandlerState::Dialing);
    assert_eq!(action, Some(HandlerAction::Dial { ip: [10, 1, 2, 3], port: 8080 }));
    assert_eq!(state.result(), None);
}

#[test]
fn reachable_destination_gets_one_granted_reply_then_the_relay() {
    let req = connect_localhost();
    let (state, actions) = run(&req, &[Outcome::Succeeded; 3]);
    assert_eq!(state, HandlerState::Relaying);
    assert_eq!(state.result(), Some(Ok(())));
    assert_eq!(
        actions,
        vec![
            HandlerAction::Dial { ip: [127, 0, 0, 1], port: 80 },
            HandlerAction::SendReply { bytes: GRANTED },
            HandlerAction::DuplicateHandles,
            HandlerAction::StartRelay,
        ]
    );
}

#[test]
fn reply_is_granted_with_port_and_address_at_zero() {
    let req = request(&[0x04, 0x01, 0x1F, 0x90, 10, 1, 2, 3]);
    let (state, action) =
        handle_sock4_client(&req, Some((HandlerState::Dialing, Outcome::Succeeded)));
    assert_eq!(state, HandlerState::Replying);
    let bytes = match action {
        Some(HandlerAction::SendReply { bytes }) => bytes,
        other => panic!("no reply but {:?}", other),
    };
    assert_eq!(bytes, GRANTED);
    let reply = Sock4Reply::deserialize(&bytes).expect("a reply");
    assert_eq!(reply.reply_code, Socks4ReplyCode::RequestGranted);
    assert_eq!(reply.version_number, 0);
    assert_eq!(reply.dst_port, 0);
    assert_eq!(reply.dst_ip, 0);
}

#[test]
fn unreachable_destination_gets_no_reply() {
    let req = connect_localhost();
    let (state, action) =
        handle_sock4_client(&req, Some((HandlerState::Dialing, Outcome::Failed)));
    assert_eq!(state, HandlerState::Failed(Socks4Error::Dial));
    assert_eq!(action, None);
    assert_eq!(state.result(), Some(Err(Socks4Error::Dial)));

    let (state, actions) = run(&req, &[Outcome::Failed, Outcome::Succeeded, Outcome::Succeeded]);
    assert_eq!(state, HandlerState::Failed(Socks4Error::Dial));
    assert_eq!(actions, vec![HandlerAction::Dial { ip: [127, 0, 0, 1], port: 80 }]);
}

#[test]
fn failed_reply_ends_handling_with_a_write_error() {
    let req = connect_localhost();
    let (state, actions) = run(&req, &[Outcome::Succeeded, Outcome::Failed]);
    assert_eq!(state, HandlerState::Failed(Socks4Error::Write));
    assert_eq!(state.result(), Some(Err(Socks4Error::Write)));
    assert_eq!(actions.len(), 2);
    assert!(!actions.contains(&HandlerAction::StartRelay));
}

#[test]
fn failed_duplication_ends_handling_before_the_relay() {
    let req = connect_localhost();
    let (state, actions) = run(&req, &[Outcome::Succeeded, Outcome::Succeeded, Outcome::Failed]);
    assert_eq!(state, HandlerState::Failed(Socks4Error::Duplicate));
    assert_eq!(state.result(), Some(Err(Socks4Error::Duplicate)));
    assert_eq!(actions.len(), 3);
    assert!(!actions.contains(&HandlerAction::StartRelay));
}

#[test]
fn nothing_is_decided_while_handling_is_under_way() {
    for state in [HandlerState::Dialing, HandlerState::Replying, HandlerState::Duplicating] {
        assert_eq!(state.result(), None);
    }
}

#[test]
fn a_handler_that_has_ended_stays_as_it_is() {
    let req = connect_localhost();
    let ended = [
        HandlerState::Relaying,
        HandlerState::Failed(Socks4Error::Dial),
        HandlerState::Failed(Socks4Error::Write),
        HandlerState::Failed(Socks4Error::Duplicate),
        HandlerState::Failed(Socks4Error::Framing),
    ];
    for state in ended {
        for outcome in [Outcome::Succeeded, Outcome::Failed] {
            assert_eq!(handle_sock4_client(&req, Some((state, outcome))), (state, None));
        }
    }
}

#[test]
fn every_request_is_served_as_a_connect() {
    for command in [0u8, 1, 2, 0xFF] {
        let req = request(&[0x04, command, 0x00, 0x50, 0x7F, 0x00, 0x00, 0x01]);
        let (state, actions) = run(&req, &[Outcome::Succeeded; 3]);
        assert_eq!(state, HandlerState::Relaying);
        assert_eq!(actions[0], HandlerAction::Dial { ip: [127, 0, 0, 1], port: 80 });
        assert_eq!(actions.len(), 4);
    }
}

#[test]
fn whatever_is_reported_the_handler_keeps_to_its_plan() {
    let req = connect_localhost();
    let plan = [
        HandlerAction::Dial { ip: [127, 0, 0, 1], port: 80 },
        HandlerAction::SendReply { bytes: GRANTED },
        HandlerAction::DuplicateHandles,
        HandlerAction::StartRelay,
    ];
    for len in 0..=6 {
        for outcomes in all_reports(len) {
            let (state, actions) = run(&req, &outcomes);
            assert_eq!(&actions[..], &plan[..actions.len()], "reports {:?}", outcomes);
            let replies = actions
                .iter()
                .filter(|action| matches!(action, HandlerAction::SendReply { .. }))
                .count();
            let dialled = outcomes.first() == Some(&Outcome::Succeeded);
            assert_eq!(replies, if dialled { 1 } else { 0 }, "reports {:?}", outcomes);
            let went_well = outcomes.iter().take_while(|o| **o == Outcome::Succeeded).count();
            assert_eq!(actions.len(), 1 + went_well.min(3), "reports {:?}", outcomes);
            if outcomes.first() == Some(&Outcome::Failed) {
                assert_eq!(state, HandlerState::Failed(Socks4Error::Dial));
            }
            if actions.contains(&HandlerAction::StartRelay) {
                assert_eq!(state.result(), Some(Ok(())));
            }
        }
    }
}
