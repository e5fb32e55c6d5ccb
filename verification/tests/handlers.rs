use serde_json::Value;
use std::collections::VecDeque;
use webrtcsink::handlers::handler::Handler;
use webrtcsink::protocol as p;

fn json(text: &str) -> Value {
    serde_json::from_str(text).unwrap()
}

#[test]
fn test_register_producer() {
    let mut stream = VecDeque::new();
    let mut handler = Handler::new();

    let message = p::IncomingMessage::Register(p::RegisterMessage::Producer {
        meta: Default::default(),
    });

    stream.push_back(("producer".to_string(), Some(message)));

    let (peer_id, sent_message) = handler.poll_next(&mut stream).unwrap();

    assert_eq!(peer_id, "producer");
    assert_eq!(
        sent_message,
        p::OutgoingMessage::Registered(p::RegisteredMessage::Producer {
            peer_id: "producer".to_string(),
            meta: Default::default(),
        })
    );
}

#[test]
fn test_list_producers() {
    let mut stream = VecDeque::new();
    let mut handler = Handler::new();

    let message = p::IncomingMessage::Register(p::RegisterMessage::Producer {
        meta: Some(json(r#"{"display-name": "foobar"}"#)),
    });

    stream.push_back(("producer".to_string(), Some(message)));

    let _ = handler.poll_next(&mut stream).unwrap();

    let message = p::IncomingMessage::List;

    stream.push_back(("listener".to_string(), Some(message)));

    let (peer_id, sent_message) = handler.poll_next(&mut stream).unwrap();

    assert_eq!(peer_id, "listener");
    assert_eq!(
        sent_message,
        p::OutgoingMessage::List {
            producers: vec![p::Peer::Producer {
                id: "producer".to_string(),
                meta: Some(json(r#"{"display-name": "foobar"}"#)),
            }]
        }
    );
}

#[test]
fn test_register_consumer() {
    let mut stream = VecDeque::new();
    let mut handler = Handler::new();

    let message = p::IncomingMessage::Register(p::RegisterMessage::Consumer {
        meta: Default::default(),
    });

    stream.push_back(("consumer".to_string(), Some(message)));

    let (peer_id, sent_message) = handler.poll_next(&mut stream).unwrap();

    assert_eq!(peer_id, "consumer");
    assert_eq!(
        sent_message,
        p::OutgoingMessage::Registered(p::RegisteredMessage::Consumer {
            peer_id: "consumer".to_string(),
            meta: Default::default()
        })
    );
}

#[test]
fn test_register_producer_twice() {
    let mut stream = VecDeque::new();
    let mut handler = Handler::new();

    let message = p::IncomingMessage::Register(p::RegisterMessage::Producer {
        meta: Default::default(),
    });
    stream.push_back(("producer".to_string(), Some(message)));
    let _ = handler.poll_next(&mut stream).unwrap();

    let message = p::IncomingMessage::Register(p::RegisterMessage::Producer {
        meta: Default::default(),
    });
    stream.push_back(("producer".to_string(), Some(message)));
    let (peer_id, sent_message) = handler.poll_next(&mut stream).unwrap();

    assert_eq!(peer_id, "producer");
    assert_eq!(
        sent_message,
        p::OutgoingMessage::Error {
            details: "producer is already registered as a producer".into()
        }
    );
}

#[test]
fn test_listener() {
    let mut stream = VecDeque::new();
    let mut handler = Handler::new();

    let message = p::IncomingMessage::Register(p::RegisterMessage::Listener {
        meta: Default::default(),
    });
    stream.push_back(("listener".to_string(), Some(message)));
    let _ = handler.poll_next(&mut stream).unwrap();

    let message = p::IncomingMessage::Register(p::RegisterMessage::Producer {
        meta: Some(json(r#"{"display-name": "foobar"}"#)),
    });
    stream.push_back(("producer".to_string(), Some(message)));
    let (peer_id, sent_message) = handler.poll_next(&mut stream).unwrap();

    assert_eq!(peer_id, "listener");
    assert_eq!(
        sent_message,
        p::OutgoingMessage::ProducerAdded {
            peer_id: "producer".to_string(),
            meta: Some(json(r#"{"display-name": "foobar"}"#))
        }
    );
}

#[test]
fn test_start_session() {
    let mut stream = VecDeque::new();
    let mut handler = Handler::new();

    let message = p::IncomingMessage::Register(p::RegisterMessage::Producer {
        meta: Default::default(),
    });
    stream.push_back(("producer".to_string(), Some(message)));
    let _ = handler.poll_next(&mut stream).unwrap();

    let message = p::IncomingMessage::Register(p::RegisterMessage::Consumer {
        meta: Default::default(),
    });
    stream.push_back(("consumer".to_string(), Some(message)));
    let _ = handler.poll_next(&mut stream).unwrap();

    let message = p::IncomingMessage::StartSession(p::StartSessionMessage {
        peer_id: "producer".to_string(),
    });
    stream.push_back(("consumer".to_string(), Some(message)));

    let (peer_id, sent_message) = handler.poll_next(&mut stream).unwrap();

    assert_eq!(peer_id, "producer");
    assert_eq!(
        sent_message,
        p::OutgoingMessage::StartSession {
            peer_id: "consumer".to_string()
        }
    );
}

#[test]
fn test_remove_peer() {
    let mut stream = VecDeque::new();
    let mut handler = Handler::new();

    let message = p::IncomingMessage::Register(p::RegisterMessage::Producer {
        meta: Default::default(),
    });
    stream.push_back(("producer".to_string(), Some(message)));
    let _ = handler.poll_next(&mut stream).unwrap();

    let message = p::IncomingMessage::Register(p::RegisterMessage::Consumer {
        meta: Default::default(),
    });
    stream.push_back(("consumer".to_string(), Some(message)));
    let _ = handler.poll_next(&mut stream).unwrap();

    let message = p::IncomingMessage::StartSession(p::StartSessionMessage {
        peer_id: "producer".to_string(),
    });
    stream.push_back(("consumer".to_string(), Some(message)));
    let _ = handler.poll_next(&mut stream).unwrap();

    let message = p::IncomingMessage::Register(p::RegisterMessage::Listener {
        meta: Default::default(),
    });
    stream.push_back(("listener".to_string(), Some(message)));
    let _ = handler.poll_next(&mut stream).unwrap();

    handler.remove_peer("producer");
    let (peer_id, sent_message) = handler.poll_next(&mut stream).unwrap();

    assert_eq!(peer_id, "consumer");
    assert_eq!(
        sent_message,
        p::OutgoingMessage::EndSession(p::EndSessionMessage::Producer {
            peer_id: "producer".to_string()
        })
    );

    let (peer_id, sent_message) = handler.poll_next(&mut stream).unwrap();

    assert_eq!(peer_id, "listener");
    assert_eq!(
        sent_message,
        p::OutgoingMessage::ProducerRemoved {
            peer_id: "producer".to_string(),
            meta: Default::default()
        }
    );
}

#[test]
fn test_end_session_consumer() {
    let mut stream = VecDeque::new();
    let mut handler = Handler::new();

    let message = p::IncomingMessage::Register(p::RegisterMessage::Producer {
        meta: Default::default(),
    });
    stream.push_back(("producer".to_string(), Some(message)));
    let _ = handler.poll_next(&mut stream).unwrap();

    let message = p::IncomingMessage::Register(p::RegisterMessage::Consumer {
        meta: Default::default(),
    });
    stream.push_back(("consumer".to_string(), Some(message)));
    let _ = handler.poll_next(&mut stream).unwrap();

    let message = p::IncomingMessage::StartSession(p::StartSessionMessage {
        peer_id: "producer".to_string(),
    });
    stream.push_back(("consumer".to_string(), Some(message)));
    let _ = handler.poll_next(&mut stream).unwrap();

    let message = p::IncomingMessage::EndSession(p::EndSessionMessage::Consumer {
        peer_id: "producer".to_string(),
    });
    stream.push_back(("consumer".to_string(), Some(message)));
    let (peer_id, sent_message) = handler.poll_next(&mut stream).unwrap();

    assert_eq!(peer_id, "producer");
    assert_eq!(
        sent_message,
        p::OutgoingMessage::EndSession(p::EndSessionMessage::Consumer {
            peer_id: "consumer".to_string()
        })
    );
}

#[test]
fn test_end_session_producer() {
    let mut stream = VecDeque::new();
    let mut handler = Handler::new();

    let message = p::IncomingMessage::Register(p::RegisterMessage::Producer {
        meta: Default::default(),
    });
    stream.push_back(("producer".to_string(), Some(message)));
    let _ = handler.poll_next(&mut stream).unwrap();

    let message = p::IncomingMessage::Register(p::RegisterMessage::Consumer {
        meta: Default::default(),
    });
    stream.push_back(("consumer".to_string(), Some(message)));
    let _ = handler.poll_next(&mut stream).unwrap();

    let message = p::IncomingMessage::StartSession(p::StartSessionMessage {
        peer_id: "producer".to_string(),
    });
    stream.push_back(("consumer".to_string(), Some(message)));
    let _ = handler.poll_next(&mut stream).unwrap();

    let message = p::IncomingMessage::EndSession(p::EndSessionMessage::Producer {
        peer_id: "consumer".to_string(),
    });
    stream.push_back(("producer".to_string(), Some(message)));
    let (peer_id, sent_message) = handler.poll_next(&mut stream).unwrap();

    assert_eq!(peer_id, "consumer");
    assert_eq!(
        sent_message,
        p::OutgoingMessage::EndSession(p::EndSessionMessage::Producer {
            peer_id: "producer".to_string()
        })
    );
}

#[test]
fn test_end_session_twice() {
    let mut stream = VecDeque::new();
    let mut handler = Handler::new();

    let message = p::IncomingMessage::Register(p::RegisterMessage::Producer {
        meta: Default::default(),
    });
    stream.push_back(("producer".to_string(), Some(message)));
    let _ = handler.poll_next(&mut stream).unwrap();

    let message = p::IncomingMessage::Register(p::RegisterMessage::Consumer {
        meta: Default::default(),
    });
    stream.push_back(("consumer".to_string(), Some(message)));
    let _ = handler.poll_next(&mut stream).unwrap();

    let message = p::IncomingMessage::StartSession(p::StartSessionMessage {
        peer_id: "producer".to_string(),
    });
    stream.push_back(("consumer".to_string(), Some(message)));
    let _ = handler.poll_next(&mut stream).unwrap();

    // The consumer ends the session
    let message = p::IncomingMessage::EndSession(p::EndSessionMessage::Consumer {
        peer_id: "producer".to_string(),
    });
    stream.push_back(("consumer".to_string(), Some(message)));

    let (peer_id, sent_message) = handler.poll_next(&mut stream).unwrap();

    assert_eq!(peer_id, "producer");
    assert_eq!(
        sent_message,
        p::OutgoingMessage::EndSession(p::EndSessionMessage::Consumer {
            peer_id: "consumer".to_string(),
        })
    );

    let message = p::IncomingMessage::EndSession(p::EndSessionMessage::Consumer {
        peer_id: "producer".to_string(),
    });
    stream.push_back(("consumer".to_string(), Some(message)));
    let (peer_id, sent_message) = handler.poll_next(&mut stream).unwrap();

    assert_eq!(peer_id, "consumer");
    assert_eq!(
        sent_message,
        p::OutgoingMessage::Error {
            details: "Consumer 'consumer' is not in a session with 'producer'".into()
        }
    );
}

#[test]
fn test_sdp_exchange() {
    let mut stream = VecDeque::new();
    let mut handler = Handler::new();

    let message = p::IncomingMessage::Register(p::RegisterMessage::Producer {
        meta: Default::default(),
    });
    stream.push_back(("producer".to_string(), Some(message)));
    let _ = handler.poll_next(&mut stream).unwrap();

    let message = p::IncomingMessage::Register(p::RegisterMessage::Consumer {
        meta: Default::default(),
    });
    stream.push_back(("consumer".to_string(), Some(message)));
    let _ = handler.poll_next(&mut stream).unwrap();

    let message = p::IncomingMessage::StartSession(p::StartSessionMessage {
        peer_id: "producer".to_string(),
    });
    stream.push_back(("consumer".to_string(), Some(message)));
    let _ = handler.poll_next(&mut stream).unwrap();

    let message = p::IncomingMessage::Peer(p::PeerMessage::Consumer(p::PeerMessageInfo {
        peer_id: "consumer".to_string(),
        peer_message: p::PeerMessageInner::Sdp(p::SdpMessage::Offer {
            sdp: "offer".to_string(),
        }),
    }));
    stream.push_back(("producer".to_string(), Some(message)));
    let (peer_id, sent_message) = handler.poll_next(&mut stream).unwrap();

    assert_eq!(peer_id, "consumer");
    assert_eq!(
        sent_message,
        p::OutgoingMessage::Peer(p::PeerMessage::Consumer(p::PeerMessageInfo {
            peer_id: "producer".to_string(),
            peer_message: p::PeerMessageInner::Sdp(p::SdpMessage::Offer {
                sdp: "offer".to_string()
            })
        }))
    );
}

#[test]
fn test_ice_exchange() {
    let mut stream = VecDeque::new();
    let mut handler = Handler::new();

    let message = p::IncomingMessage::Register(p::RegisterMessage::Producer {
        meta: Default::default(),
    });
    stream.push_back(("producer".to_string(), Some(message)));
    let _ = handler.poll_next(&mut stream).unwrap();

    let message = p::IncomingMessage::Register(p::RegisterMessage::Consumer {
        meta: Default::default(),
    });
    stream.push_back(("consumer".to_string(), Some(message)));
    let _ = handler.poll_next(&mut stream).unwrap();

    let message = p::IncomingMessage::StartSession(p::StartSessionMessage {
        peer_id: "producer".to_string(),
    });
    stream.push_back(("consumer".to_string(), Some(message)));
    let _ = handler.poll_next(&mut stream).unwrap();

    let message = p::IncomingMessage::Peer(p::PeerMessage::Producer(p::PeerMessageInfo {
        peer_id: "consumer".to_string(),
        peer_message: p::PeerMessageInner::Ice {
            candidate: "candidate".to_string(),
            sdp_m_line_index: 42,
        },
    }));
    stream.push_back(("producer".to_string(), Some(message)));
    let (peer_id, sent_message) = handler.poll_next(&mut stream).unwrap();

    assert_eq!(peer_id, "consumer");
    assert_eq!(
        sent_message,
        p::OutgoingMessage::Peer(p::PeerMessage::Producer(p::PeerMessageInfo {
            peer_id: "producer".to_string(),
            peer_message: p::PeerMessageInner::Ice {
                candidate: "candidate".to_string(),
                sdp_m_line_index: 42
            }
        }))
    );

    let message = p::IncomingMessage::Peer(p::PeerMessage::Consumer(p::PeerMessageInfo {
        peer_id: "producer".to_string(),
        peer_message: p::PeerMessageInner::Ice {
            candidate: "candidate".to_string(),
            sdp_m_line_index: 42,
        },
    }));
    stream.push_back(("consumer".to_string(), Some(message)));
    let (peer_id, sent_message) = handler.poll_next(&mut stream).unwrap();

    assert_eq!(peer_id, "producer");
    assert_eq!(
        sent_message,
        p::OutgoingMessage::Peer(p::PeerMessage::Consumer(p::PeerMessageInfo {
            peer_id: "consumer".to_string(),
            peer_message: p::PeerMessageInner::Ice {
                candidate: "candidate".to_string(),
                sdp_m_line_index: 42
            }
        }))
    );
}

#[test]
fn test_sdp_exchange_wrong_direction_offer() {
    let mut stream = VecDeque::new();
    let mut handler = Handler::new();

    let message = p::IncomingMessage::Register(p::RegisterMessage::Producer {
        meta: Default::default(),
    });
    stream.push_back(("producer".to_string(), Some(message)));
    let _ = handler.poll_next(&mut stream).unwrap();

    let message = p::IncomingMessage::Register(p::RegisterMessage::Consumer {
        meta: Default::default(),
    });
    stream.push_back(("consumer".to_string(), Some(message)));
    let _ = handler.poll_next(&mut stream).unwrap();

    let message = p::IncomingMessage::StartSession(p::StartSessionMessage {
        peer_id: "producer".to_string(),
    });
    stream.push_back(("consumer".to_string(), Some(message)));
    let _ = handler.poll_next(&mut stream).unwrap();

    let message = p::IncomingMessage::Peer(p::PeerMessage::Producer(p::PeerMessageInfo {
        peer_id: "producer".to_string(),
        peer_message: p::PeerMessageInner::Sdp(p::SdpMessage::Offer {
            sdp: "offer".to_string(),
        }),
    }));
    stream.push_back(("consumer".to_string(), Some(message)));
    let (peer_id, sent_message) = handler.poll_next(&mut stream).unwrap();

    assert_eq!(peer_id, "consumer");
    assert_eq!(sent_message,
        p::OutgoingMessage::Error {
            details: "cannot forward offer from consumer to producer as they are not in a session or consumer is not the producer".into()
        }
    );
}

#[test]
fn test_start_session_no_producer() {
    let mut stream = VecDeque::new();
    let mut handler = Handler::new();

    let message = p::IncomingMessage::Register(p::RegisterMessage::Consumer {
        meta: Default::default(),
    });
    stream.push_back(("consumer".to_string(), Some(message)));
    let _ = handler.poll_next(&mut stream).unwrap();

    let message = p::IncomingMessage::StartSession(p::StartSessionMessage {
        peer_id: "producer".to_string(),
    });
    stream.push_back(("consumer".to_string(), Some(message)));
    let (peer_id, sent_message) = handler.poll_next(&mut stream).unwrap();

    assert_eq!(peer_id, "consumer");
    assert_eq!(
        sent_message,
        p::OutgoingMessage::Error {
            details: "Peer with id producer is not registered as a producer".into()
        }
    );
}

#[test]
fn test_unregistering() {
    let mut stream = VecDeque::new();
    let mut handler = Handler::new();

    let message = p::IncomingMessage::Register(p::RegisterMessage::Producer {
        meta: Default::default(),
    });
    stream.push_back(("producer".to_string(), Some(message)));
    let _ = handler.poll_next(&mut stream).unwrap();

    let message = p::IncomingMessage::Register(p::RegisterMessage::Consumer {
        meta: Default::default(),
    });
    stream.push_back(("consumer".to_string(), Some(message)));
    let _ = handler.poll_next(&mut stream).unwrap();

    let message = p::IncomingMessage::StartSession(p::StartSessionMessage {
        peer_id: "producer".to_string(),
    });
    stream.push_back(("consumer".to_string(), Some(message)));

    let (peer_id, sent_message) = handler.poll_next(&mut stream).unwrap();

    assert_eq!(peer_id, "producer");
    assert_eq!(
        sent_message,
        p::OutgoingMessage::StartSession {
            peer_id: "consumer".to_string()
        }
    );

    let message = p::IncomingMessage::Unregister(p::UnregisterMessage::Producer);
    stream.push_back(("producer".to_string(), Some(message)));

    let (peer_id, sent_message) = handler.poll_next(&mut stream).unwrap();

    assert_eq!(peer_id, "consumer");
    assert_eq!(
        sent_message,
        p::OutgoingMessage::EndSession(p::EndSessionMessage::Producer {
            peer_id: "producer".to_string()
        })
    );

    let (peer_id, sent_message) = handler.poll_next(&mut stream).unwrap();

    assert_eq!(peer_id, "producer");
    assert_eq!(
        sent_message,
        p::OutgoingMessage::Unregistered(p::UnregisteredMessage::Producer {
            peer_id: "producer".into(),
            meta: Default::default()
        })
    );
}

#[test]
fn test_unregistering_with_listenners() {
    let mut stream = VecDeque::new();
    let mut handler = Handler::new();

    let message = p::IncomingMessage::Register(p::RegisterMessage::Listener {
        meta: Default::default(),
    });
    stream.push_back(("listener".to_string(), Some(message)));
    let (l, _) = handler.poll_next(&mut stream).unwrap();
    assert_eq!(l, "listener");

    let message = p::IncomingMessage::Register(p::RegisterMessage::Producer {
        meta: Some(json(r#"{"some": "meta"}"#)),
    });
    stream.push_back(("producer".to_string(), Some(message)));
    let (peer_id, sent_message) = handler.poll_next(&mut stream).unwrap();
    assert_eq!(peer_id, "listener");
    assert_eq!(
        sent_message,
        p::OutgoingMessage::ProducerAdded {
            peer_id: "producer".to_string(),
            meta: Some(json(r#"{"some": "meta"}"#)),
        }
    );

    let (peer_id, _msg) = handler.poll_next(&mut stream).unwrap();
    assert_eq!(peer_id, "producer");

    let message = p::IncomingMessage::Register(p::RegisterMessage::Consumer {
        meta: Default::default(),
    });
    stream.push_back(("consumer".to_string(), Some(message)));
    let (peer_id, _msg) = handler.poll_next(&mut stream).unwrap();
    assert_eq!(peer_id, "consumer");

    let message = p::IncomingMessage::StartSession(p::StartSessionMessage {
        peer_id: "producer".to_string(),
    });
    stream.push_back(("consumer".to_string(), Some(message)));

    let (peer_id, sent_message) = handler.poll_next(&mut stream).unwrap();

    assert_eq!(peer_id, "producer");
    assert_eq!(
        sent_message,
        p::OutgoingMessage::StartSession {
            peer_id: "consumer".to_string()
        }
    );

    let message = p::IncomingMessage::Unregister(p::UnregisterMessage::Producer);
    stream.push_back(("producer".to_string(), Some(message)));

    let (peer_id, sent_message) = handler.poll_next(&mut stream).unwrap();

    assert_eq!(peer_id, "consumer");
    assert_eq!(
        sent_message,
        p::OutgoingMessage::EndSession(p::EndSessionMessage::Producer {
            peer_id: "producer".to_string()
        })
    );

    let (peer_id, sent_message) = handler.poll_next(&mut stream).unwrap();
    assert_eq!(peer_id, "listener");
    assert_eq!(
        sent_message,
        p::OutgoingMessage::ProducerRemoved {
            peer_id: "producer".into(),
            meta: Some(json(r#"{"some": "meta"}"#))
        }
    );
    let (peer_id, sent_message) = handler.poll_next(&mut stream).unwrap();
    assert_eq!(peer_id, "producer");
    assert_eq!(
        sent_message,
        p::OutgoingMessage::Unregistered(p::UnregisteredMessage::Producer {
            peer_id: "producer".into(),
            meta: Some(json(r#"{"some": "meta"}"#))
        })
    );
    let (peer_id, sent_message) = handler.poll_next(&mut stream).unwrap();
    assert_eq!(peer_id, "listener");
    assert_eq!(
        sent_message,
        p::OutgoingMessage::Unregistered(p::UnregisteredMessage::Producer {
            peer_id: "producer".into(),
            meta: Some(json(r#"{"some": "meta"}"#)),
        })
    );
}

#[test]
fn test_start_session_no_consumer() {
    let mut stream = VecDeque::new();
    let mut handler = Handler::new();

    let message = p::IncomingMessage::Register(p::RegisterMessage::Producer {
        meta: Default::default(),
    });
    stream.push_back(("producer".to_string(), Some(message)));
    let _ = handler.poll_next(&mut stream).unwrap();

    let message = p::IncomingMessage::StartSession(p::StartSessionMessage {
        peer_id: "producer".to_string(),
    });
    stream.push_back(("consumer".to_string(), Some(message)));
    let (peer_id, sent_message) = handler.poll_next(&mut stream).unwrap();

    assert_eq!(peer_id, "consumer");
    assert_eq!(
        sent_message,
        p::OutgoingMessage::Error {
            details: "Peer with id consumer is not registered as a consumer".into()
        }
    );
}

#[test]
fn test_start_session_twice() {
    let mut stream = VecDeque::new();
    let mut handler = Handler::new();

    let message = p::IncomingMessage::Register(p::RegisterMessage::Producer {
        meta: Default::default(),
    });
    stream.push_back(("producer".to_string(), Some(message)));
    let _ = handler.poll_next(&mut stream).unwrap();

    let message = p::IncomingMessage::Register(p::RegisterMessage::Consumer {
        meta: Default::default(),
    });
    stream.push_back(("consumer".to_string(), Some(message)));
    let _ = handler.poll_next(&mut stream).unwrap();

    let message = p::IncomingMessage::StartSession(p::StartSessionMessage {
        peer_id: "producer".to_string(),
    });
    stream.push_back(("consumer".to_string(), Some(message)));
    let _ = handler.poll_next(&mut stream).unwrap();

    let message = p::IncomingMessage::StartSession(p::StartSessionMessage {
        peer_id: "producer".to_string(),
    });

    stream.push_back(("consumer".to_string(), Some(message)));
    let (peer_id, sent_message) = handler.poll_next(&mut stream).unwrap();

    assert_eq!(peer_id, "consumer");
    assert_eq!(
        sent_message,
        p::OutgoingMessage::Error {
            details: "Consumer with id consumer is already in a session with producer producer"
                .into()
        }
    );
}
