//! The messages that peers and the signalling server exchange.
//!
//! Each message type has a `View`, in which identifiers and other texts are
//! sequences of characters.
use crate::peers::Id;
use serde_json::Value;
use vstd::prelude::*;

verus! {

/// Confirms registration
#[derive(Debug, PartialEq)]
pub enum RegisteredMessage {
    /// Registered as a producer
    Producer { peer_id: String, meta: Option<Value> },
    /// Registered as a consumer
    Consumer { peer_id: String, meta: Option<Value> },
    /// Registered as a listener
    Listener { peer_id: String, meta: Option<Value> },
}

/// The view of `RegisteredMessage`.
pub enum RegisteredMessageView {
    Producer { peer_id: Id, meta: Option<Value> },
    Consumer { peer_id: Id, meta: Option<Value> },
    Listener { peer_id: Id, meta: Option<Value> },
}

impl View for RegisteredMessage {
    type V = RegisteredMessageView;

    open spec fn view(&self) -> RegisteredMessageView {
        match self {
            RegisteredMessage::Producer { peer_id, meta } => RegisteredMessageView::Producer { peer_id: peer_id@, meta: *meta },
            RegisteredMessage::Consumer { peer_id, meta } => RegisteredMessageView::Consumer { peer_id: peer_id@, meta: *meta },
            RegisteredMessage::Listener { peer_id, meta } => RegisteredMessageView::Listener { peer_id: peer_id@, meta: *meta },
        }
    }
}

impl Clone for RegisteredMessage {
    fn clone(&self) -> (copy: Self)
        ensures
            copy@ == self@,
    {
        match self {
            RegisteredMessage::Producer { peer_id, meta } => RegisteredMessage::Producer { peer_id: peer_id.clone(), meta: meta.clone() },
            RegisteredMessage::Consumer { peer_id, meta } => RegisteredMessage::Consumer { peer_id: peer_id.clone(), meta: meta.clone() },
            RegisteredMessage::Listener { peer_id, meta } => RegisteredMessage::Listener { peer_id: peer_id.clone(), meta: meta.clone() },
        }
    }
}

/// Confirms unregistration
#[derive(Debug, PartialEq)]
pub enum UnregisteredMessage {
    /// Unregistered as a producer
    Producer { peer_id: String, meta: Option<Value> },
    /// Unregistered as a consumer
    Consumer { peer_id: String, meta: Option<Value> },
    /// Unregistered as a listener
    Listener { peer_id: String, meta: Option<Value> },
}

/// The view of `UnregisteredMessage`.
pub enum UnregisteredMessageView {
    Producer { peer_id: Id, meta: Option<Value> },
    Consumer { peer_id: Id, meta: Option<Value> },
    Listener { peer_id: Id, meta: Option<Value> },
}

impl View for UnregisteredMessage {
    type V = UnregisteredMessageView;

    open spec fn view(&self) -> UnregisteredMessageView {
        match self {
            UnregisteredMessage::Producer { peer_id, meta } => UnregisteredMessageView::Producer { peer_id: peer_id@, meta: *meta },
            UnregisteredMessage::Consumer { peer_id, meta } => UnregisteredMessageView::Consumer { peer_id: peer_id@, meta: *meta },
            UnregisteredMessage::Listener { peer_id, meta } => UnregisteredMessageView::Listener { peer_id: peer_id@, meta: *meta },
        }
    }
}

impl Clone for UnregisteredMessage {
    fn clone(&self) -> (copy: Self)
        ensures
            copy@ == self@,
    {
        match self {
            UnregisteredMessage::Producer { peer_id, meta } => UnregisteredMessage::Producer { peer_id: peer_id.clone(), meta: meta.clone() },
            UnregisteredMessage::Consumer { peer_id, meta } => UnregisteredMessage::Consumer { peer_id: peer_id.clone(), meta: meta.clone() },
            UnregisteredMessage::Listener { peer_id, meta } => UnregisteredMessage::Listener { peer_id: peer_id.clone(), meta: meta.clone() },
        }
    }
}

/// A peer, as a list of peers shows it
#[derive(Debug, PartialEq)]
pub enum Peer {
    /// Registered as a producer
    Producer { id: String, meta: Option<Value> },
    /// Registered as a consumer
    Consumer { id: String, meta: Option<Value> },
}

/// The view of `Peer`.
pub enum PeerView {
    Producer { id: Id, meta: Option<Value> },
    Consumer { id: Id, meta: Option<Value> },
}

impl View for Peer {
    type V = PeerView;

    open spec fn view(&self) -> PeerView {
        match self {
            Peer::Producer { id, meta } => PeerView::Producer { id: id@, meta: *meta },
            Peer::Consumer { id, meta } => PeerView::Consumer { id: id@, meta: *meta },
        }
    }
}

impl Clone for Peer {
    fn clone(&self) -> (copy: Self)
        ensures
            copy@ == self@,
    {
        match self {
            Peer::Producer { id, meta } => Peer::Producer { id: id.clone(), meta: meta.clone() },
            Peer::Consumer { id, meta } => Peer::Consumer { id: id.clone(), meta: meta.clone() },
        }
    }
}

/// Messages sent from the server to peers
#[derive(Debug, PartialEq)]
pub enum OutgoingMessage {
    /// Confirms registration
    Registered(RegisteredMessage),
    /// Confirms unregistration
    Unregistered(UnregisteredMessage),
    /// Notifies listeners that a producer was registered
    ProducerAdded { peer_id: String, meta: Option<Value> },
    /// Notifies listeners that a producer was removed
    ProducerRemoved { peer_id: String, meta: Option<Value> },
    /// Instructs a peer to generate an offer
    StartSession { peer_id: String },
    /// Signals that the session the peer was in was ended
    EndSession(EndSessionMessage),
    /// Messages directly forwarded from one peer to another
    Peer(PeerMessage),
    /// Provides the current list of producer peers
    List { producers: Vec<Peer> },
    /// Notifies that an error occurred with the peer's current session
    Error { details: String },
}

/// The view of `OutgoingMessage`.
pub enum OutgoingMessageView {
    Registered(RegisteredMessageView),
    Unregistered(UnregisteredMessageView),
    ProducerAdded { peer_id: Id, meta: Option<Value> },
    ProducerRemoved { peer_id: Id, meta: Option<Value> },
    StartSession { peer_id: Id },
    EndSession(EndSessionMessageView),
    Peer(PeerMessageView),
    List { producers: Seq<PeerView> },
    Error { details: Seq<char> },
}

impl View for OutgoingMessage {
    type V = OutgoingMessageView;

    open spec fn view(&self) -> OutgoingMessageView {
        match self {
            OutgoingMessage::Registered(m) => OutgoingMessageView::Registered(m@),
            OutgoingMessage::Unregistered(m) => OutgoingMessageView::Unregistered(m@),
            OutgoingMessage::ProducerAdded { peer_id, meta } => OutgoingMessageView::ProducerAdded {
                peer_id: peer_id@,
                meta: *meta,
            },
            OutgoingMessage::ProducerRemoved { peer_id, meta } => OutgoingMessageView::ProducerRemoved {
                peer_id: peer_id@,
                meta: *meta,
            },
            OutgoingMessage::StartSession { peer_id } => OutgoingMessageView::StartSession {
                peer_id: peer_id@,
            },
            OutgoingMessage::EndSession(m) => OutgoingMessageView::EndSession(m@),
            OutgoingMessage::Peer(m) => OutgoingMessageView::Peer(m@),
            OutgoingMessage::List { producers } => OutgoingMessageView::List {
                producers: producers@.map_values(|p: Peer| p@),
            },
            OutgoingMessage::Error { details } => OutgoingMessageView::Error { details: details@ },
        }
    }
}

impl Clone for OutgoingMessage {
    fn clone(&self) -> (copy: Self)
        ensures
            copy@ == self@,
    {
        match self {
            OutgoingMessage::Registered(m) => OutgoingMessage::Registered(m.clone()),
            OutgoingMessage::Unregistered(m) => OutgoingMessage::Unregistered(m.clone()),
            OutgoingMessage::ProducerAdded { peer_id, meta } => OutgoingMessage::ProducerAdded {
                peer_id: peer_id.clone(),
                meta: meta.clone(),
            },
            OutgoingMessage::ProducerRemoved { peer_id, meta } => OutgoingMessage::ProducerRemoved {
                peer_id: peer_id.clone(),
                meta: meta.clone(),
            },
            OutgoingMessage::StartSession { peer_id } => OutgoingMessage::StartSession {
                peer_id: peer_id.clone(),
            },
            OutgoingMessage::EndSession(m) => OutgoingMessage::EndSession(m.clone()),
            OutgoingMessage::Peer(m) => OutgoingMessage::Peer(m.clone()),
            OutgoingMessage::List { producers } => {
                let mut copies: Vec<Peer> = Vec::new();
                let mut at: usize = 0;
                while at < producers.len()
                    invariant
                        at <= producers@.len(),
                        copies@.len() == at,
                        forall|i: int| 0 <= i < at ==> copies@[i]@ == #[trigger] producers@[i]@,
                    decreases producers@.len() - at,
                {
                    copies.push(producers[at].clone());
                    at = at + 1;
                }
                assert(copies@.map_values(|p: Peer| p@) =~= producers@.map_values(|p: Peer| p@));
                OutgoingMessage::List { producers: copies }
            },
            OutgoingMessage::Error { details } => OutgoingMessage::Error { details: details.clone() },
        }
    }
}

/// Register with a peer type
#[derive(Debug)]
pub enum RegisterMessage {
    /// Register as a producer
    Producer { meta: Option<Value> },
    /// Register as a consumer
    Consumer { meta: Option<Value> },
    /// Register as a listener
    Listener { meta: Option<Value> },
}

/// Unregister a peer type
#[derive(Debug)]
pub enum UnregisterMessage {
    /// Unregister a producer
    Producer,
    /// Unregister a consumer
    Consumer,
    /// Unregister a listener
    Listener,
}

/// Ask the server to start a session with a producer peer
#[derive(Debug)]
pub struct StartSessionMessage {
    /// Identifies the peer
    pub peer_id: String,
}

/// Conveys a SDP
#[derive(Debug, PartialEq)]
pub enum SdpMessage {
    /// Conveys an offer
    Offer {
        /// The SDP
        sdp: String,
    },
    /// Conveys an answer
    Answer {
        /// The SDP
        sdp: String,
    },
}

/// The view of `SdpMessage`.
pub enum SdpMessageView {
    Offer { sdp: Seq<char> },
    Answer { sdp: Seq<char> },
}

impl View for SdpMessage {
    type V = SdpMessageView;

    open spec fn view(&self) -> SdpMessageView {
        match self {
            SdpMessage::Offer { sdp } => SdpMessageView::Offer { sdp: sdp@ },
            SdpMessage::Answer { sdp } => SdpMessageView::Answer { sdp: sdp@ },
        }
    }
}

impl Clone for SdpMessage {
    fn clone(&self) -> (copy: Self)
        ensures
            copy@ == self@,
    {
        match self {
            SdpMessage::Offer { sdp } => SdpMessage::Offer { sdp: sdp.clone() },
            SdpMessage::Answer { sdp } => SdpMessage::Answer { sdp: sdp.clone() },
        }
    }
}

/// Contents of the peer message
#[derive(Debug, PartialEq)]
pub enum PeerMessageInner {
    /// Conveys an ICE candidate
    Ice {
        /// The candidate string
        candidate: String,
        /// The mline index the candidate applies to
        sdp_m_line_index: u32,
    },
    /// Conveys a session description
    Sdp(SdpMessage),
}

/// The view of `PeerMessageInner`.
pub enum PeerMessageInnerView {
    Ice { candidate: Seq<char>, sdp_m_line_index: u32 },
    Sdp(SdpMessageView),
}

impl View for PeerMessageInner {
    type V = PeerMessageInnerView;

    open spec fn view(&self) -> PeerMessageInnerView {
        match self {
            PeerMessageInner::Ice { candidate, sdp_m_line_index } => PeerMessageInnerView::Ice {
                candidate: candidate@,
                sdp_m_line_index: *sdp_m_line_index,
            },
            PeerMessageInner::Sdp(sdp) => PeerMessageInnerView::Sdp(sdp@),
        }
    }
}

impl Clone for PeerMessageInner {
    fn clone(&self) -> (copy: Self)
        ensures
            copy@ == self@,
    {
        match self {
            PeerMessageInner::Ice { candidate, sdp_m_line_index } => PeerMessageInner::Ice {
                candidate: candidate.clone(),
                sdp_m_line_index: *sdp_m_line_index,
            },
            PeerMessageInner::Sdp(sdp) => PeerMessageInner::Sdp(sdp.clone()),
        }
    }
}

/// A peer message and the other peer of its session
#[derive(Debug, PartialEq)]
pub struct PeerMessageInfo {
    /// From a peer: whom the message is for. To a peer: whom it came from
    pub peer_id: String,
    /// The contents of the message
    pub peer_message: PeerMessageInner,
}

/// The view of `PeerMessageInfo`.
pub struct PeerMessageInfoView {
    pub peer_id: Id,
    pub peer_message: PeerMessageInnerView,
}

impl View for PeerMessageInfo {
    type V = PeerMessageInfoView;

    open spec fn view(&self) -> PeerMessageInfoView {
        PeerMessageInfoView { peer_id: self.peer_id@, peer_message: self.peer_message@ }
    }
}

impl Clone for PeerMessageInfo {
    fn clone(&self) -> (copy: Self)
        ensures
            copy@ == self@,
    {
        PeerMessageInfo {
            peer_id: self.peer_id.clone(),
            peer_message: self.peer_message.clone(),
        }
    }
}

/// Messages directly forwarded from one peer to another
#[derive(Debug, PartialEq)]
pub enum PeerMessage {
    /// Sent by the producer of the session
    Producer(PeerMessageInfo),
    /// Sent by the consumer of the session
    Consumer(PeerMessageInfo),
}

/// The view of `PeerMessage`.
pub enum PeerMessageView {
    Producer(PeerMessageInfoView),
    Consumer(PeerMessageInfoView),
}

impl View for PeerMessage {
    type V = PeerMessageView;

    open spec fn view(&self) -> PeerMessageView {
        match self {
            PeerMessage::Producer(info) => PeerMessageView::Producer(info@),
            PeerMessage::Consumer(info) => PeerMessageView::Consumer(info@),
        }
    }
}

impl Clone for PeerMessage {
    fn clone(&self) -> (copy: Self)
        ensures
            copy@ == self@,
    {
        match self {
            PeerMessage::Producer(info) => PeerMessage::Producer(info.clone()),
            PeerMessage::Consumer(info) => PeerMessage::Consumer(info.clone()),
        }
    }
}

/// End a session
#[derive(Debug, PartialEq, Eq)]
pub enum EndSessionMessage {
    /// Sent by the consumer of the session
    Consumer { peer_id: String },
    /// Sent by the producer of the session
    Producer { peer_id: String },
}

/// The view of `EndSessionMessage`.
pub enum EndSessionMessageView {
    Consumer { peer_id: Id },
    Producer { peer_id: Id },
}

impl View for EndSessionMessage {
    type V = EndSessionMessageView;

    open spec fn view(&self) -> EndSessionMessageView {
        match self {
            EndSessionMessage::Consumer { peer_id } => EndSessionMessageView::Consumer {
                peer_id: peer_id@,
            },
            EndSessionMessage::Producer { peer_id } => EndSessionMessageView::Producer {
                peer_id: peer_id@,
            },
        }
    }
}

impl Clone for EndSessionMessage {
    fn clone(&self) -> (copy: Self)
        ensures
            copy@ == self@,
    {
        match self {
            EndSessionMessage::Consumer { peer_id } => EndSessionMessage::Consumer {
                peer_id: peer_id.clone(),
            },
            EndSessionMessage::Producer { peer_id } => EndSessionMessage::Producer {
                peer_id: peer_id.clone(),
            },
        }
    }
}

/// Messages received by the server from peers
#[derive(Debug)]
pub enum IncomingMessage {
    /// Register as a peer type
    Register(RegisterMessage),
    /// Unregister as a peer type
    Unregister(UnregisterMessage),
    /// Start a session with a producer peer
    StartSession(StartSessionMessage),
    /// End an existing session
    EndSession(EndSessionMessage),
    /// Send a message to a peer the sender is currently in session with
    Peer(PeerMessage),
    /// Retrieve the current list of producers
    List,
}

/// The view of `IncomingMessage`.
pub enum IncomingMessageView {
    Register(RegisterMessage),
    Unregister(UnregisterMessage),
    StartSession { peer_id: Id },
    EndSession(EndSessionMessageView),
    Peer(PeerMessageView),
    List,
}

impl View for IncomingMessage {
    type V = IncomingMessageView;

    open spec fn view(&self) -> IncomingMessageView {
        match self {
            IncomingMessage::Register(m) => IncomingMessageView::Register(*m),
            IncomingMessage::Unregister(m) => IncomingMessageView::Unregister(*m),
            IncomingMessage::StartSession(m) => IncomingMessageView::StartSession {
                peer_id: m.peer_id@,
            },
            IncomingMessage::EndSession(m) => IncomingMessageView::EndSession(m@),
            IncomingMessage::Peer(m) => IncomingMessageView::Peer(m@),
            IncomingMessage::List => IncomingMessageView::List,
        }
    }
}

/// What the server sends is looked at as it is: of the same kind, about the same peers,
/// with the same metadata and contents.
pub proof fn outgoing_messages_say_what_they_hold(message: OutgoingMessage)
    ensures
        match message {
            OutgoingMessage::Registered(RegisteredMessage::Producer { peer_id, meta }) => message@
                == OutgoingMessageView::Registered(
                RegisteredMessageView::Producer { peer_id: peer_id@, meta },
            ),
            OutgoingMessage::Registered(RegisteredMessage::Consumer { peer_id, meta }) => message@
                == OutgoingMessageView::Registered(
                RegisteredMessageView::Consumer { peer_id: peer_id@, meta },
            ),
            OutgoingMessage::Registered(RegisteredMessage::Listener { peer_id, meta }) => message@
                == OutgoingMessageView::Registered(
                RegisteredMessageView::Listener { peer_id: peer_id@, meta },
            ),
            OutgoingMessage::Unregistered(UnregisteredMessage::Producer { peer_id, meta }) => {
                message@ == OutgoingMessageView::Unregistered(
                    UnregisteredMessageView::Producer { peer_id: peer_id@, meta },
                )
            },
            OutgoingMessage::Unregistered(UnregisteredMessage::Consumer { peer_id, meta }) => {
                message@ == OutgoingMessageView::Unregistered(
                    UnregisteredMessageView::Consumer { peer_id: peer_id@, meta },
                )
            },
            OutgoingMessage::Unregistered(UnregisteredMessage::Listener { peer_id, meta }) => {
                message@ == OutgoingMessageView::Unregistered(
                    UnregisteredMessageView::Listener { peer_id: peer_id@, meta },
                )
            },
            OutgoingMessage::ProducerAdded { peer_id, meta } => message@
                == (OutgoingMessageView::ProducerAdded { peer_id: peer_id@, meta }),
            OutgoingMessage::ProducerRemoved { peer_id, meta } => message@
                == (OutgoingMessageView::ProducerRemoved { peer_id: peer_id@, meta }),
            OutgoingMessage::StartSession { peer_id } => message@
                == (OutgoingMessageView::StartSession { peer_id: peer_id@ }),
            OutgoingMessage::EndSession(EndSessionMessage::Producer { peer_id }) => message@
                == OutgoingMessageView::EndSession(
                EndSessionMessageView::Producer { peer_id: peer_id@ },
            ),
            OutgoingMessage::EndSession(EndSessionMessage::Consumer { peer_id }) => message@
                == OutgoingMessageView::EndSession(
                EndSessionMessageView::Consumer { peer_id: peer_id@ },
            ),
            OutgoingMessage::Peer(PeerMessage::Producer(info)) => message@
                == OutgoingMessageView::Peer(PeerMessageView::Producer(info@)),
            OutgoingMessage::Peer(PeerMessage::Consumer(info)) => message@
                == OutgoingMessageView::Peer(PeerMessageView::Consumer(info@)),
            OutgoingMessage::List { producers } => {
                &&& message@ is List
                &&& message@->producers.len() == producers@.len()
                &&& forall|i: int|
                    0 <= i < producers@.len() ==> #[trigger] message@->producers[i] == (
                    match producers@[i] {
                        Peer::Producer { id, meta } => PeerView::Producer { id: id@, meta },
                        Peer::Consumer { id, meta } => PeerView::Consumer { id: id@, meta },
                    })
            },
            OutgoingMessage::Error { details } => message@
                == (OutgoingMessageView::Error { details: details@ }),
        },
{
}

/// What peers send each other is looked at as it is.
pub proof fn peer_messages_say_what_they_hold(info: PeerMessageInfo)
    ensures
        info@.peer_id == info.peer_id@,
        match info.peer_message {
            PeerMessageInner::Ice { candidate, sdp_m_line_index } => info@.peer_message
                == (PeerMessageInnerView::Ice { candidate: candidate@, sdp_m_line_index }),
            PeerMessageInner::Sdp(SdpMessage::Offer { sdp }) => info@.peer_message
                == PeerMessageInnerView::Sdp(SdpMessageView::Offer { sdp: sdp@ }),
            PeerMessageInner::Sdp(SdpMessage::Answer { sdp }) => info@.peer_message
                == PeerMessageInnerView::Sdp(SdpMessageView::Answer { sdp: sdp@ }),
        },
{
}

/// What the server receives is looked at as it is.
pub proof fn incoming_messages_say_what_they_hold(message: IncomingMessage)
    ensures
        match message {
            IncomingMessage::Register(role) => message@ == IncomingMessageView::Register(role),
            IncomingMessage::Unregister(role) => message@ == IncomingMessageView::Unregister(role),
            IncomingMessage::StartSession(request) => message@
                == (IncomingMessageView::StartSession { peer_id: request.peer_id@ }),
            IncomingMessage::EndSession(EndSessionMessage::Producer { peer_id }) => message@
                == IncomingMessageView::EndSession(
                EndSessionMessageView::Producer { peer_id: peer_id@ },
            ),
            IncomingMessage::EndSession(EndSessionMessage::Consumer { peer_id }) => message@
                == IncomingMessageView::EndSession(
                EndSessionMessageView::Consumer { peer_id: peer_id@ },
            ),
            IncomingMessage::Peer(PeerMessage::Producer(info)) => message@
                == IncomingMessageView::Peer(PeerMessageView::Producer(info@)),
            IncomingMessage::Peer(PeerMessage::Consumer(info)) => message@
                == IncomingMessageView::Peer(PeerMessageView::Consumer(info@)),
            IncomingMessage::List => message@ is List,
        },
{
}

} // verus!
