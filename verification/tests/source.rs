use serde_json::Value;
use webrtcsink::handlers::handler::Handler;
use webrtcsink::numbers::{contains, parse_i32, parse_u32, split_in_two, to_decimal};
use webrtcsink::protocol as p;
use webrtcsink::urls::scheme;
use webrtcsink::webrtcsrc::media::{
    extension_field, original_format, payload_type, select_caps, stream_type,
    twcc_extension, AnswerFormat, AnsweredMedia, AnsweredStream, OfferedFormat, OfferedMedia,
    StreamType,
};
use webrtcsink::webrtcsrc::signaller::{
    find_peer_id, keep_object, on_frame, on_unknown_message, on_unreadable_offer, on_unsent,
    Action, ConnectError, Frame, FrameStep, Request, Signaller,
};
use webrtcsink::webrtcsrc::source::{
    after_change, change_failure, find_stream, is_last_pad, prepares, AfterChange, Candidate,
    ElementState, Response, Signal, Transition, WebRTCSrc,
};

fn chars(text: &str) -> Vec<char> {
    text.chars().collect()
}

fn strings(texts: &[&str]) -> Vec<String> {
    texts.iter().map(|text| text.to_string()).collect()
}

fn value(text: &str) -> Value {
    serde_json::from_str(text).unwrap()
}

fn client(address: &str) -> Signaller {
    let mut signaller = Signaller::default();
    signaller.address = address.to_string();
    signaller.connected = true;
    signaller
}

fn sent(actions: &Vec<Action>) -> Vec<String> {
    actions.iter().map(|action| format!("{:?}", action)).collect()
}

#[test]
fn schemes_end_at_the_first_colon() {
    assert_eq!(scheme("gstwebrtc://host:8443/?peer-id=a:b"), "gstwebrtc");
    assert_eq!(scheme("none"), "none");
    assert_eq!(scheme(":x"), "");
    assert_eq!(scheme(""), "");
}

#[test]
fn numbers_are_written_in_decimal() {
    for n in [0, 7, 10, 99, 100, 8443, u64::MAX] {
        assert_eq!(to_decimal(n), format!("{}", n));
    }
}

#[test]
fn numbers_are_read_as_the_standard_library_reads_them() {
    for text in [
        "", "+", "-", "0", "007", "+5", "-5", "+-5", "12a", " 1", "4294967295", "4294967296",
        "2147483647", "2147483648", "-2147483648", "-2147483649", "99999999999999999999999",
    ] {
        assert_eq!(parse_u32(&chars(text)), text.parse::<u32>().ok(), "{}", text);
        assert_eq!(parse_i32(&chars(text)), text.parse::<i32>().ok(), "{}", text);
    }
}

#[test]
fn texts_are_parted_at_a_single_space() {
    assert_eq!(split_in_two(&chars("1 uri")), Some((chars("1"), chars("uri"))));
    assert_eq!(split_in_two(&chars(" ")), Some((vec![], vec![])));
    assert_eq!(split_in_two(&chars("1")), None);
    assert_eq!(split_in_two(&chars("1 2 3")), None);
    assert!(contains(&chars("abcabd"), &chars("abd")));
    assert!(contains(&chars("abc"), &chars("")));
    assert!(!contains(&chars("ab"), &chars("abc")));
    assert!(!contains(&chars("abcab"), &chars("abd")));
}

#[test]
fn addresses_name_a_peer() {
    assert_eq!(
        client("ws://host:8443/?peer-id=abc").peer_id(),
        Some("abc".to_string())
    );
    assert_eq!(
        client("ws://host/?a=1&peer-id=x%20y&peer-id=z").peer_id(),
        Some("x y".to_string())
    );
    assert_eq!(client("ws://host/").peer_id(), None);
    assert_eq!(client("no address").peer_id(), None);
    let pairs = vec![
        ("other".to_string(), "1".to_string()),
        ("peer-id".to_string(), "2".to_string()),
        ("peer-id".to_string(), "3".to_string()),
    ];
    assert_eq!(find_peer_id(&pairs), Some("2".to_string()));
    assert_eq!(find_peer_id(&vec![]), None);
}

#[test]
fn connections_go_to_the_address_without_its_query() {
    assert_eq!(client("WS://Host").uri(), Ok("ws://host/".to_string()));
    assert_eq!(client("ws://").uri(), Err("EmptyHost".to_string()));
    assert_eq!(
        client("ws://host:8443/path?peer-id=abc#part").connect().unwrap(),
        "ws://host:8443/path#part"
    );
    let missing = client("ws://host/").connect().unwrap_err();
    assert!(matches!(missing, ConnectError::NoPeerId));
    assert_eq!(missing.message(), "No peer id set");
    assert!(matches!(
        client("no address").connect(),
        Err(ConnectError::NoPeerId)
    ));
    let mut listener = client("ws://host/");
    listener.listener = true;
    assert_eq!(listener.connect().unwrap(), "ws://host/");
    listener.address = "no address".to_string();
    let bad = listener.connect().unwrap_err();
    assert_eq!(bad.message(), "RelativeUrlWithoutBase");
}

#[test]
fn clients_register_and_ask_for_a_session() {
    let meta = Some(value(r#"{"a": 1}"#));
    let signaller = client("ws://host/?peer-id=p1");
    assert_eq!(
        format!("{:?}", signaller.register(meta.clone())),
        format!(
            "{:?}",
            p::IncomingMessage::Register(p::RegisterMessage::Consumer { meta: meta.clone() })
        )
    );
    let registered = || {
        p::OutgoingMessage::Registered(p::RegisteredMessage::Consumer {
            peer_id: "me".to_string(),
            meta: None,
        })
    };
    let expected = vec![
        Action::Send(p::IncomingMessage::StartSession(p::StartSessionMessage {
            peer_id: "p1".to_string(),
        })),
        Action::Send(p::IncomingMessage::Register(p::RegisterMessage::Listener {
            meta: meta.clone(),
        })),
    ];
    let actions = signaller.try_receive(registered(), &meta).unwrap();
    assert_eq!(sent(&actions), sent(&expected));

    let mut listener = client("ws://host/");
    listener.listener = true;
    let actions = listener.try_receive(registered(), &meta).unwrap();
    assert_eq!(sent(&actions), sent(&expected)[1..].to_vec());

    assert!(client("ws://host/").try_receive(registered(), &meta).is_none());

    let mut unconnected = client("ws://host/?peer-id=p1");
    unconnected.connected = false;
    assert!(unconnected.try_receive(registered(), &meta).unwrap().is_empty());
}

#[test]
fn clients_tell_of_what_the_server_says() {
    let signaller = client("ws://host/?peer-id=p1");
    let told = |message| sent(&signaller.try_receive(message, &None).unwrap());
    assert_eq!(
        told(p::OutgoingMessage::ProducerAdded {
            peer_id: "x".to_string(),
            meta: Some(value(r#"{"a": 1}"#)),
        }),
        sent(&vec![Action::ProducerAdded {
            peer_id: "x".to_string(),
            meta: Some(value(r#"{"a": 1}"#)),
        }])
    );
    assert_eq!(
        told(p::OutgoingMessage::ProducerRemoved {
            peer_id: "x".to_string(),
            meta: Some(value("[1]")),
        }),
        sent(&vec![Action::ProducerRemoved { peer_id: "x".to_string(), meta: None }])
    );
    assert_eq!(
        told(p::OutgoingMessage::EndSession(p::EndSessionMessage::Producer {
            peer_id: "x".to_string(),
        })),
        sent(&vec![Action::SessionEnded { peer_id: "x".to_string() }])
    );
    assert_eq!(
        told(p::OutgoingMessage::Peer(p::PeerMessage::Producer(p::PeerMessageInfo {
            peer_id: "x".to_string(),
            peer_message: p::PeerMessageInner::Sdp(p::SdpMessage::Offer {
                sdp: "v=0".to_string(),
            }),
        }))),
        sent(&vec![Action::SdpOffer { peer_id: "x".to_string(), sdp: "v=0".to_string() }])
    );
    assert_eq!(
        told(p::OutgoingMessage::Peer(p::PeerMessage::Consumer(p::PeerMessageInfo {
            peer_id: "x".to_string(),
            peer_message: p::PeerMessageInner::Ice {
                candidate: "c".to_string(),
                sdp_m_line_index: 3,
            },
        }))),
        sent(&vec![Action::HandleIce {
            peer_id: "x".to_string(),
            sdp_m_line_index: 3,
            candidate: "c".to_string(),
        }])
    );
    assert_eq!(
        told(p::OutgoingMessage::Error { details: "bad".to_string() }),
        sent(&vec![Action::Error { message: "Error message from server: bad".to_string() }])
    );
    assert!(told(p::OutgoingMessage::List { producers: vec![] }).is_empty());
    assert!(signaller.is_expected(&p::OutgoingMessage::List { producers: vec![] }));
    assert!(!signaller.is_expected(&p::OutgoingMessage::StartSession { peer_id: "x".to_string() }));
    for wrap in [p::PeerMessage::Consumer, p::PeerMessage::Producer] {
        assert!(!signaller.is_expected(&p::OutgoingMessage::Peer(wrap(p::PeerMessageInfo {
            peer_id: "x".to_string(),
            peer_message: p::PeerMessageInner::Sdp(p::SdpMessage::Answer {
                sdp: "v=0".to_string(),
            }),
        }))));
    }
}

#[test]
fn clients_answer_the_peer() {
    let signaller = client("ws://host/?peer-id=p1");
    let to_peer = |peer_message| {
        sent(&vec![Action::Send(p::IncomingMessage::Peer(p::PeerMessage::Consumer(
            p::PeerMessageInfo { peer_id: "p1".to_string(), peer_message },
        )))])
    };
    let ice = || p::PeerMessageInner::Ice { candidate: "c".to_string(), sdp_m_line_index: 2 };
    assert_eq!(
        sent(&signaller
            .request(Request::HandleIce { candidate: "c".to_string(), sdp_m_line_index: 2 })
            .unwrap()),
        to_peer(ice())
    );
    assert_eq!(
        sent(&signaller
            .request(Request::AddIce { candidate: "c".to_string(), sdp_m_line_index: 2 })
            .unwrap()),
        to_peer(ice())
    );
    assert_eq!(
        sent(&signaller.request(Request::HandleSdp { sdp: "v=0".to_string() }).unwrap()),
        to_peer(p::PeerMessageInner::Sdp(p::SdpMessage::Answer { sdp: "v=0".to_string() }))
    );
    assert_eq!(
        sent(&signaller.request(Request::StartSession).unwrap()),
        sent(&signaller.start_session())
    );
    assert!(client("ws://host/").request(Request::StartSession).is_none());
}

#[test]
fn only_objects_are_passed_on_as_meta() {
    assert_eq!(keep_object(Some(value("{}"))), Some(value("{}")));
    for text in ["null", "1", "[{}]", "\"{}\"", "true"] {
        assert_eq!(keep_object(Some(value(text))), None);
    }
    assert_eq!(keep_object(None), None);
}

#[test]
fn connections_are_made_and_given_up() {
    let mut signaller = Signaller::default();
    assert!(!signaller.stop());
    signaller.on_connected();
    assert!(signaller.connected);
    assert!(signaller.stop());
    assert!(!signaller.connected);
}

#[test]
fn failures_are_told() {
    assert!(matches!(
        on_frame(Ok(Frame::Text("x".to_string()))),
        FrameStep::Read(text) if text == "x"
    ));
    assert!(matches!(on_frame(Ok(Frame::Close)), FrameStep::Stop));
    assert!(matches!(on_frame(Ok(Frame::Other)), FrameStep::Skip));
    assert!(matches!(
        on_frame(Err("reset".to_string())),
        FrameStep::Fail(text) if text == "Error receiving: reset"
    ));
    assert!(matches!(
        on_unknown_message("?"),
        Action::Error { message } if message == "Unknown message from server: ?"
    ));
    assert!(matches!(
        on_unreadable_offer("sdp", "Err"),
        Action::Error { message } if message == "Error parsing SDP: sdp Err"
    ));
    assert!(matches!(
        on_unsent("full"),
        Action::Error { message } if message == "Error: full"
    ));
}

#[test]
fn uris_of_the_source_become_addresses_of_the_server() {
    let mut source = WebRTCSrc::default();
    assert_eq!(source.uri(), Some("".to_string()));
    source.set_uri("gstwebrtc://host:8443?peer-id=abc").unwrap();
    assert_eq!(source.uri(), Some("ws://host:8443?peer-id=abc".to_string()));
    assert_eq!(source.signaller.peer_id(), Some("abc".to_string()));
    source.set_uri("GSTWEBRTCS://host/a b").unwrap();
    assert_eq!(source.uri(), Some("wss://host/a%20b".to_string()));

    let error = source.set_uri("http://host").unwrap_err();
    assert_eq!(error.message(), "Invalid protocol: http");
    let error = source.set_uri("host").unwrap_err();
    assert_eq!(error.message(), "RelativeUrlWithoutBase");
    assert_eq!(source.uri(), Some("wss://host/a%20b".to_string()));
    assert_eq!(WebRTCSrc::protocols(), vec!["gstwebrtc", "gstwebrtcs"]);
}

#[test]
fn sources_start_with_the_usual_settings() {
    let source = WebRTCSrc::default();
    assert_eq!(source.stun_server, Some("stun://stun.l.google.com:19302".to_string()));
    assert_eq!(source.codecs(), strings(&["VP8", "H264", "VP9", "H265", "OPUS"]));
    assert!(source.child_by_name("signaller").is_some());
    assert!(source.child_by_name("other").is_none());
}

#[test]
fn payload_types_are_numbers() {
    assert_eq!(payload_type("96"), Some(96));
    assert_eq!(payload_type("+98"), Some(98));
    assert_eq!(payload_type(""), None);
    assert_eq!(payload_type("webrtc-datachannel"), None);
    assert_eq!(payload_type("-1"), Some(-1));
}

#[test]
fn offers_are_taken_up_in_the_preferred_way() {
    let format = |format: &str, encoding: &str| OfferedFormat {
        format: format.to_string(),
        encoding: Some(encoding.to_string()),
    };
    let medias = vec![
        OfferedMedia {
            formats: vec![
                format("96", "H264"),
                format("x", "VP8"),
                format("97", "RTX"),
                format("98", "VP8"),
                OfferedFormat { format: "99".to_string(), encoding: None },
            ],
            attributes: vec![
                Some("sendonly".to_string()),
                Some(
                    "5 http://www.ietf.org/id/draft-holmer-rmcat-transport-wide-cc-extensions-01"
                        .to_string(),
                ),
            ],
        },
        OfferedMedia { formats: vec![format("111", "OPUS")], attributes: vec![] },
        OfferedMedia { formats: vec![], attributes: vec![None] },
    ];
    let chosen: Vec<Vec<(i32, Option<String>)>> = WebRTCSrc::default()
        .handle_offer(&medias)
        .into_iter()
        .map(|formats| formats.into_iter().map(|f| (f.payload_type, f.extension)).collect())
        .collect();
    let extension = Some("extmap-5".to_string());
    assert_eq!(
        chosen,
        vec![
            vec![(98, extension.clone()), (96, extension)],
            vec![(111, None)],
            vec![],
        ]
    );
}

#[test]
fn the_first_offer_of_the_extension_counts() {
    let uri = "http://www.ietf.org/id/draft-holmer-rmcat-transport-wide-cc-extensions-01";
    let values = vec![
        None,
        Some("3 urn:other".to_string()),
        Some(format!("x {}", uri)),
        Some(format!("4 {} more", uri)),
        Some(format!("5 {}", uri)),
        Some(format!("6 {}", uri)),
    ];
    assert_eq!(twcc_extension(&values), Some(5));
    assert_eq!(twcc_extension(&values[..4].to_vec()), None);
    assert_eq!(extension_field(5), "extmap-5");
}

#[test]
fn capabilities_are_chosen_by_the_preference_of_codecs() {
    let encodings = vec![
        Some("OPUS".to_string()),
        Some("H264".to_string()),
        None,
        Some("VP8".to_string()),
        Some("H264".to_string()),
        Some("RTX".to_string()),
    ];
    let codecs = WebRTCSrc::default().codecs();
    assert_eq!(select_caps(&encodings, &codecs), vec![3, 1, 4, 0]);
    assert_eq!(select_caps(&encodings, &vec![]), Vec::<usize>::new());
}

#[test]
fn answers_describe_the_original_streams() {
    let format = |format: &str, has_caps, apt: Option<&str>| AnswerFormat {
        format: format.to_string(),
        has_caps,
        apt: apt.map(|apt| apt.to_string()),
    };
    let formats = vec![
        format("x", true, None),
        format("97", true, Some("96")),
        format("95", false, None),
        format("98", true, Some("98")),
        format("96", true, None),
    ];
    assert_eq!(original_format(&formats), Some(3));
    assert_eq!(original_format(&formats.into_iter().take(3).collect()), None);
    assert_eq!(stream_type(&Some("video".to_string())), StreamType::Video);
    assert_eq!(stream_type(&Some("audio".to_string())), StreamType::Audio);
    assert_eq!(stream_type(&Some("application".to_string())), StreamType::Unknown);
    assert_eq!(stream_type(&None), StreamType::Unknown);
}

#[test]
fn pads_are_numbered_and_the_last_is_known() {
    let mut source = WebRTCSrc::default();
    assert_eq!(source.add_pad(), (0, "src_0".to_string()));
    assert_eq!(source.add_pad(), (1, "src_1".to_string()));
    assert!(!source.no_more_pads(1));
    source.remove_pad();
    assert_eq!(source.add_pad(), (1, "src_1".to_string()));
    let streams = vec![StreamType::Video, StreamType::Unknown, StreamType::Audio];
    assert!(!is_last_pad(0, &streams));
    assert!(is_last_pad(1, &streams));
    source.session_id = Some("s".to_string());
    let media = |name: &str| AnsweredMedia {
        media: Some(name.to_string()),
        formats: vec![AnswerFormat { format: "96".to_string(), has_caps: true, apt: None }],
    };
    let (answered, session) =
        source.on_answer_created(&vec![media("video"), media("text"), media("audio")]);
    assert_eq!(session, Ok("s".to_string()));
    assert_eq!(
        answered,
        streams
            .iter()
            .map(|kind| AnsweredStream { format: Some(0), kind: *kind })
            .collect::<Vec<_>>()
    );
    assert!(source.no_more_pads(1));
    assert!(!source.no_more_pads(2));
    source.n_pads = u16::MAX;
    assert_eq!(source.add_pad(), (65535, "src_65535".to_string()));
    assert_eq!(source.n_pads, 0);
    source.remove_pad();
    assert_eq!(source.n_pads, u16::MAX);
}

#[test]
fn pads_belong_to_the_first_stream_that_fits_and_is_free() {
    let stream = |fits, id: Option<&str>| Candidate {
        fits,
        stream_id: id.map(|id| id.to_string()),
    };
    let streams = vec![stream(false, Some("a")), stream(true, Some("b")), stream(true, None)];
    assert_eq!(find_stream(&streams, &vec![strings(&[])]), Some(1));
    assert_eq!(find_stream(&streams, &vec![strings(&["a", "b"])]), Some(2));
    assert_eq!(find_stream(&streams, &vec![strings(&["b"]), strings(&["a"])]), Some(1));
    assert_eq!(find_stream(&streams, &vec![]), None);
}

#[test]
fn sessions_begin_and_end_with_signals() {
    let mut source = WebRTCSrc::default();
    assert_eq!(
        source.on_ice_candidate(),
        Err("Signalling error, no session started while requesting to propose ice candidates")
    );
    assert_eq!(
        source.on_answer_created(&vec![]).1,
        Err("Signalling error, no session started while requesting to send an SDP offer")
    );
    let response = source.on_signal(Signal::SessionStarted {
        session_id: "s".to_string(),
        peer_id: "p".to_string(),
    });
    assert!(matches!(response, Response::Nothing));
    assert_eq!(source.on_ice_candidate(), Ok("s".to_string()));
    assert!(matches!(
        source.on_signal(Signal::SessionEnded { peer_id: "p".to_string() }),
        Response::Fail(message) if message == "Peer ended session"
    ));
    assert!(source.on_ice_candidate().is_err());
    assert!(matches!(
        source.on_signal(Signal::Error { error: "e".to_string() }),
        Response::Fail(message) if message == "Signalling error: e"
    ));
    assert!(matches!(
        source.on_signal(Signal::SdpOffer { peer_id: "p".to_string(), sdp: "v=0".to_string() }),
        Response::Answer(sdp) if sdp == "v=0"
    ));
    assert!(matches!(
        source.on_signal(Signal::HandleIce {
            peer_id: "p".to_string(),
            sdp_m_line_index: Some(2),
            candidate: "c".to_string(),
        }),
        Response::AddIceCandidate { sdp_m_line_index: 2, candidate } if candidate == "c"
    ));
    assert!(matches!(
        source.on_signal(Signal::HandleIce {
            peer_id: "p".to_string(),
            sdp_m_line_index: None,
            candidate: "c".to_string(),
        }),
        Response::Nothing
    ));
}

#[test]
fn the_signaller_runs_while_the_element_does() {
    let mut source = WebRTCSrc::default();
    assert!(!source.maybe_stop_signaller());
    assert!(!source.maybe_start_signaller(ElementState::Null));
    assert!(!source.maybe_start_signaller(ElementState::Ready));
    assert!(source.maybe_start_signaller(ElementState::Paused));
    assert!(!source.maybe_start_signaller(ElementState::Playing));
    source.session_id = Some("s".to_string());
    assert!(source.unprepare());
    assert_eq!(source.session_id, None);
    assert!(!source.unprepare());
    assert!(source.maybe_start_signaller(ElementState::Playing));
    assert!(source.maybe_stop_signaller());
}

#[test]
fn transitions_set_up_and_take_down() {
    assert!(prepares(Transition::NullToReady));
    assert!(!prepares(Transition::PausedToReady));
    assert_eq!(after_change(Transition::PausedToReady), AfterChange::Unprepare);
    assert_eq!(after_change(Transition::ReadyToPaused), AfterChange::NoPreroll);
    assert_eq!(after_change(Transition::PausedToPlaying), AfterChange::StartSignaller);
    assert_eq!(after_change(Transition::PlayingToPaused), AfterChange::Nothing);
    assert_eq!(change_failure(true, "x"), "Failed to prepare: x");
    assert_eq!(change_failure(false, "x"), "Failed to unprepare: x");
}

#[test]
fn clients_and_the_server_get_along() {
    let mut handler = Handler::new();
    handler.receive(
        "p1",
        Some(p::IncomingMessage::Register(p::RegisterMessage::Producer { meta: None })),
    );
    handler.next_item().unwrap();
    let signaller = client("ws://host/?peer-id=p1");
    handler.receive("me", Some(signaller.register(None)));
    let (to, confirmation) = handler.next_item().unwrap();
    assert_eq!(to, "me");
    for action in signaller.try_receive(confirmation, &None).unwrap() {
        match action {
            Action::Send(message) => handler.receive("me", Some(message)),
            other => panic!("unexpected {:?}", other),
        }
    }
    assert_eq!(
        handler.next_item().unwrap(),
        (
            "p1".to_string(),
            p::OutgoingMessage::StartSession { peer_id: "me".to_string() }
        )
    );
    assert_eq!(
        handler.next_item().unwrap(),
        (
            "me".to_string(),
            p::OutgoingMessage::Registered(p::RegisteredMessage::Listener {
                peer_id: "me".to_string(),
                meta: None,
            })
        )
    );

    let offer = p::PeerMessageInner::Sdp(p::SdpMessage::Offer { sdp: "o".to_string() });
    handler.receive(
        "p1",
        Some(p::IncomingMessage::Peer(p::PeerMessage::Producer(p::PeerMessageInfo {
            peer_id: "me".to_string(),
            peer_message: offer,
        }))),
    );
    let (_, offer) = handler.next_item().unwrap();
    assert_eq!(
        sent(&signaller.try_receive(offer, &None).unwrap()),
        sent(&vec![Action::SdpOffer { peer_id: "p1".to_string(), sdp: "o".to_string() }])
    );
    for action in signaller.request(Request::HandleSdp { sdp: "a".to_string() }).unwrap() {
        if let Action::Send(message) = action {
            handler.receive("me", Some(message));
        }
    }
    assert_eq!(
        handler.next_item().unwrap(),
        (
            "p1".to_string(),
            p::OutgoingMessage::Peer(p::PeerMessage::Consumer(p::PeerMessageInfo {
                peer_id: "me".to_string(),
                peer_message: p::PeerMessageInner::Sdp(p::SdpMessage::Answer {
                    sdp: "a".to_string(),
                }),
            }))
        )
    );
}
