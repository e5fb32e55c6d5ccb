use serde_json::Value;
use std::collections::VecDeque;
use webrtcsink::handlers::handler::Handler;
use webrtcsink::protocol as p;
use webrtcsink::signalling::protocol as answers;
use webrtcsink::signalling::server::{
    listen_address, on_frame, Frame, FrameStep, SignallingServer, SignallingServerError,
};

fn parse(text: &str) -> Value {
    serde_json::from_str(text).unwrap()
}

fn register(handler: &mut Handler, role: &str, id: &str) {
    let message = match role {
        "producer" => p::RegisterMessage::Producer { meta: None },
        "consumer" => p::RegisterMessage::Consumer { meta: None },
        _ => p::RegisterMessage::Listener { meta: None },
    };
    handler.receive(id, Some(p::IncomingMessage::Register(message)));
}

fn start(handler: &mut Handler, producer: &str, consumer: &str) {
    handler.receive(
        consumer,
        Some(p::IncomingMessage::StartSession(p::StartSessionMessage {
            peer_id: producer.to_string(),
        })),
    );
}

fn drain(handler: &mut Handler) -> Vec<(String, p::OutgoingMessage)> {
    let mut items = vec![];
    while let Some(item) = handler.next_item() {
        items.push(item);
    }
    items
}

fn error_for(id: &str, details: &str) -> Vec<(String, p::OutgoingMessage)> {
    vec![(
        id.to_string(),
        p::OutgoingMessage::Error { details: details.to_string() },
    )]
}

fn in_session() -> Handler {
    let mut handler = Handler::new();
    register(&mut handler, "producer", "p");
    register(&mut handler, "consumer", "c");
    start(&mut handler, "p", "c");
    drain(&mut handler);
    handler
}

fn peer(as_consumer: bool, to: &str, inner: p::PeerMessageInner) -> p::IncomingMessage {
    let info = p::PeerMessageInfo { peer_id: to.to_string(), peer_message: inner };
    p::IncomingMessage::Peer(if as_consumer {
        p::PeerMessage::Consumer(info)
    } else {
        p::PeerMessage::Producer(info)
    })
}

fn offer(sdp: &str) -> p::PeerMessageInner {
    p::PeerMessageInner::Sdp(p::SdpMessage::Offer { sdp: sdp.to_string() })
}

fn answer(sdp: &str) -> p::PeerMessageInner {
    p::PeerMessageInner::Sdp(p::SdpMessage::Answer { sdp: sdp.to_string() })
}

fn ice(candidate: &str) -> p::PeerMessageInner {
    p::PeerMessageInner::Ice { candidate: candidate.to_string(), sdp_m_line_index: 1 }
}

#[test]
fn it_makes_no_difference_when_messages_are_asked_for() {
    let arrivals = || {
        vec![
            (
                "l".to_string(),
                Some(p::IncomingMessage::Register(p::RegisterMessage::Listener { meta: None })),
            ),
            (
                "p".to_string(),
                Some(p::IncomingMessage::Register(p::RegisterMessage::Producer { meta: None })),
            ),
            ("p".to_string(), Some(p::IncomingMessage::List)),
            ("p".to_string(), None),
            ("l".to_string(), Some(p::IncomingMessage::List)),
        ]
    };
    let mut eager = Handler::new();
    for (id, message) in arrivals() {
        eager.receive(&id, message);
    }
    let mut late = Handler::new();
    let mut stream: VecDeque<_> = arrivals().into_iter().collect();
    let mut items = vec![];
    while let Some(item) = late.poll_next(&mut stream) {
        items.push(item);
    }
    assert_eq!(items, drain(&mut eager));
    assert_eq!(items.len(), 6);
}

#[test]
fn every_role_is_refused_twice() {
    for role in ["producer", "consumer", "listener"] {
        let mut handler = Handler::new();
        register(&mut handler, role, "x");
        drain(&mut handler);
        register(&mut handler, role, "x");
        let details = format!("x is already registered as a {}", role);
        assert_eq!(drain(&mut handler), error_for("x", &details));
    }
}

#[test]
fn roles_can_be_taken_again_after_unregistering() {
    for (role, message) in [
        ("producer", p::UnregisterMessage::Producer),
        ("consumer", p::UnregisterMessage::Consumer),
        ("listener", p::UnregisterMessage::Listener),
    ] {
        let mut handler = Handler::new();
        register(&mut handler, role, "x");
        handler.receive("x", Some(p::IncomingMessage::Unregister(message)));
        drain(&mut handler);
        register(&mut handler, role, "x");
        let items = drain(&mut handler);
        assert_eq!(items.len(), 1);
        assert!(matches!(items[0].1, p::OutgoingMessage::Registered(_)));
    }
}

#[test]
fn a_refused_request_leaves_everything_as_it_was() {
    let mut handler = in_session();
    start(&mut handler, "p", "c");
    start(&mut handler, "nobody", "c");
    start(&mut handler, "p", "stranger");
    assert_eq!(drain(&mut handler).len(), 3);
    handler.receive("c", Some(peer(true, "p", ice("a"))));
    assert_eq!(
        drain(&mut handler),
        vec![(
            "p".to_string(),
            p::OutgoingMessage::Peer(p::PeerMessage::Consumer(p::PeerMessageInfo {
                peer_id: "c".to_string(),
                peer_message: ice("a"),
            })),
        )]
    );
}

#[test]
fn answers_reach_the_producer() {
    let mut handler = in_session();
    handler.receive("c", Some(peer(true, "p", answer("text"))));
    assert_eq!(
        drain(&mut handler),
        vec![(
            "p".to_string(),
            p::OutgoingMessage::Peer(p::PeerMessage::Consumer(p::PeerMessageInfo {
                peer_id: "c".to_string(),
                peer_message: answer("text"),
            })),
        )]
    );
}

#[test]
fn messages_outside_a_session_are_refused() {
    let mut handler = Handler::new();
    register(&mut handler, "producer", "p");
    register(&mut handler, "consumer", "c");
    drain(&mut handler);

    handler.receive("c", Some(peer(true, "p", ice("a"))));
    assert_eq!(
        drain(&mut handler),
        error_for("c", "cannot forward ICE from consumer=c to producer=p as they are not in a session")
    );

    handler.receive("p", Some(peer(false, "c", ice("a"))));
    assert_eq!(
        drain(&mut handler),
        error_for("p", "cannot forward ICE from producer=p to consumer=c as they are not in a session")
    );

    handler.receive("p", Some(peer(false, "c", offer("o"))));
    assert_eq!(
        drain(&mut handler),
        error_for("p", "cannot forward offer from p to c as they are not in a session")
    );

    handler.receive("c", Some(peer(true, "p", answer("a"))));
    assert_eq!(
        drain(&mut handler),
        error_for("c", "cannot forward answer from c to p as they are not in a session")
    );
}

#[test]
fn sessions_can_be_ended_and_started_again() {
    let mut handler = in_session();
    handler.receive(
        "p",
        Some(p::IncomingMessage::EndSession(p::EndSessionMessage::Producer {
            peer_id: "c".to_string(),
        })),
    );
    drain(&mut handler);
    start(&mut handler, "p", "c");
    assert_eq!(
        drain(&mut handler),
        vec![(
            "p".to_string(),
            p::OutgoingMessage::StartSession { peer_id: "c".to_string() },
        )]
    );
}

#[test]
fn a_producer_cannot_end_a_session_twice() {
    let mut handler = in_session();
    for _ in 0..2 {
        handler.receive(
            "p",
            Some(p::IncomingMessage::EndSession(p::EndSessionMessage::Producer {
                peer_id: "c".to_string(),
            })),
        );
    }
    let items = drain(&mut handler);
    assert_eq!(items.len(), 2);
    assert_eq!(
        items[1],
        error_for("p", "Producer 'p' is not in a session with 'c'").pop().unwrap()
    );
}

#[test]
fn a_consumer_can_leave_a_producer_that_is_gone() {
    let mut handler = in_session();
    handler.receive("p", None);
    drain(&mut handler);
    handler.receive(
        "c",
        Some(p::IncomingMessage::EndSession(p::EndSessionMessage::Consumer {
            peer_id: "p".to_string(),
        })),
    );
    assert_eq!(
        drain(&mut handler),
        vec![(
            "p".to_string(),
            p::OutgoingMessage::EndSession(p::EndSessionMessage::Consumer {
                peer_id: "c".to_string(),
            }),
        )]
    );
}

#[test]
fn a_consumer_that_is_gone_ends_its_sessions() {
    let mut handler = Handler::new();
    register(&mut handler, "producer", "p");
    register(&mut handler, "producer", "q");
    register(&mut handler, "consumer", "c");
    start(&mut handler, "p", "c");
    start(&mut handler, "q", "c");
    drain(&mut handler);
    handler.receive("c", None);
    let ended = p::OutgoingMessage::EndSession(p::EndSessionMessage::Consumer {
        peer_id: "c".to_string(),
    });
    let told: Vec<String> = drain(&mut handler)
        .into_iter()
        .map(|(id, message)| {
            assert_eq!(message, ended);
            id
        })
        .collect();
    assert_eq!(told, vec!["p".to_string(), "q".to_string()]);
    handler.receive("p", Some(peer(false, "c", ice("a"))));
    assert!(matches!(drain(&mut handler)[0].1, p::OutgoingMessage::Error { .. }));
}

#[test]
fn a_listener_that_is_gone_hears_nothing() {
    let mut handler = Handler::new();
    register(&mut handler, "listener", "l");
    register(&mut handler, "listener", "m");
    handler.receive("l", None);
    drain(&mut handler);
    register(&mut handler, "producer", "p");
    let told: Vec<String> = drain(&mut handler).into_iter().map(|(id, _)| id).collect();
    assert_eq!(told, vec!["m".to_string(), "p".to_string()]);
}

#[test]
fn lists_name_every_producer_once_with_its_meta() {
    let mut handler = Handler::new();
    handler.receive(
        "a",
        Some(p::IncomingMessage::Register(p::RegisterMessage::Producer {
            meta: Some(parse(r#"{"name": "a"}"#)),
        })),
    );
    register(&mut handler, "producer", "b");
    register(&mut handler, "consumer", "c");
    drain(&mut handler);
    handler.receive("c", Some(p::IncomingMessage::List));
    assert_eq!(
        drain(&mut handler),
        vec![(
            "c".to_string(),
            p::OutgoingMessage::List {
                producers: vec![
                    p::Peer::Producer {
                        id: "a".to_string(),
                        meta: Some(parse(r#"{"name": "a"}"#)),
                    },
                    p::Peer::Producer { id: "b".to_string(), meta: None },
                ],
            },
        )]
    );
}

#[test]
fn only_peers_that_are_connected_get_error_answers() {
    let mut server = SignallingServer::new(None, None);
    server.add_peer("x".to_string());
    assert!(server.is_connected("x"));
    assert!(server.handle_message(Ok(()), "x").is_none());
    assert!(server.handle_message(Err("no".to_string()), "y").is_none());
    let delivery = server.handle_message(Err("no".to_string()), "x").unwrap();
    assert_eq!(delivery.peer_id, "x");
    assert_eq!(
        delivery.message,
        answers::OutgoingMessage::Error { details: "no".to_string() }
    );
    assert!(server.remove_peer("x"));
    assert!(!server.remove_peer("x"));
    assert!(server.handle_message(Err("no".to_string()), "x").is_none());
}

#[test]
fn connections_get_identifiers_of_their_own() {
    let mut server = SignallingServer::new(None, None);
    let first = server.accept_connection();
    let second = server.accept_connection();
    assert_ne!(first, second);
    assert!(server.is_connected(&first) && server.is_connected(&second));
    assert_eq!(first.len(), 36);
    for (i, c) in first.chars().enumerate() {
        if [8, 13, 18, 23].contains(&i) {
            assert_eq!(c, '-');
        } else {
            assert!("0123456789abcdef".contains(c));
        }
    }
    assert_eq!(first.chars().nth(14), Some('4'));
    assert!("89ab".contains(first.chars().nth(19).unwrap()));
}

#[test]
fn texts_count_up_to_the_first_frame_that_ends_the_connection() {
    let text = |text: &str| Ok(Frame::Text(text.to_string()));
    let mut handled = Vec::new();
    for frame in [text("a"), Ok(Frame::Other), text("b"), Err("broken".to_string()), text("c")] {
        match on_frame(frame) {
            FrameStep::Handle(text) => handled.push(text),
            FrameStep::Ignore => (),
            FrameStep::Close => break,
        }
    }
    assert_eq!(handled, vec!["a".to_string(), "b".to_string()]);
}

#[test]
fn frames_are_handled_ignored_or_end_the_connection() {
    assert!(matches!(
        on_frame(Ok(Frame::Text("hi".to_string()))),
        FrameStep::Handle(text) if text == "hi"
    ));
    assert!(matches!(on_frame(Ok(Frame::Close)), FrameStep::Close));
    assert!(matches!(on_frame(Ok(Frame::Other)), FrameStep::Ignore));
    assert!(matches!(on_frame(Err("broken".to_string())), FrameStep::Close));
}

#[test]
fn servers_listen_and_encrypt_as_they_are_told() {
    assert_eq!(listen_address("0.0.0.0", 8443), "0.0.0.0:8443");
    assert_eq!(listen_address("::1", 0), "::1:0");
    assert!(SignallingServer::new(None, Some("p".to_string())).setup_tls().is_none());
    assert_eq!(
        SignallingServer::new(Some("f".to_string()), None).setup_tls(),
        Some(("f".to_string(), "".to_string()))
    );
    assert_eq!(
        SignallingServer::new(Some("f".to_string()), Some("p".to_string())).setup_tls(),
        Some(("f".to_string(), "p".to_string()))
    );
    assert_eq!(
        SignallingServerError::InvalidCertificate.message(),
        "Invalid certificate"
    );
}
