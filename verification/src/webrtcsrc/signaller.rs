//! The client of a signalling server that looks for a producer.
use crate::json::json_is_object;
use crate::protocol::{
    EndSessionMessage, EndSessionMessageView, IncomingMessage, IncomingMessageView,
    OutgoingMessage, OutgoingMessageView, PeerMessage, PeerMessageInfo, PeerMessageInfoView,
    PeerMessageInner, PeerMessageInnerView, PeerMessageView, RegisterMessage, RegisteredMessage,
    RegisteredMessageView, SdpMessage, SdpMessageView, StartSessionMessage,
};
use crate::text::same;
use crate::urls::{
    is_url, pairs_view, parse, query_pairs, result_view, url_parsed, url_query_pairs,
    url_without_query, without_query,
};
use serde_json::Value;
use vstd::prelude::*;

verus! {

/// The value that the first pair with a key holds.
pub open spec fn first_value(pairs: Seq<(Seq<char>, Seq<char>)>, key: Seq<char>) -> Option<
    Seq<char>,
>
    decreases pairs.len(),
{
    if pairs.len() == 0 {
        None
    } else if pairs[0].0 == key {
        Some(pairs[0].1)
    } else {
        first_value(pairs.drop_first(), key)
    }
}

/// The view of a text that may be missing.
pub open spec fn option_view(text: Option<String>) -> Option<Seq<char>> {
    match text {
        None => None,
        Some(text) => Some(text@),
    }
}

/// The peer that an address names.
pub open spec fn peer_id_in(address: Seq<char>) -> Option<Seq<char>> {
    if is_url(address) {
        first_value(url_query_pairs(address), "peer-id"@)
    } else {
        None
    }
}

/// The peer that the pairs of a query name: the value of the first that has the
/// key `peer-id`.
pub fn find_peer_id(pairs: &Vec<(String, String)>) -> (id: Option<String>)
    ensures
        option_view(id) == first_value(pairs_view(pairs@), "peer-id"@),
{
    let ghost views = pairs_view(pairs@);
    let mut at: usize = 0;
    assert(views.skip(0) =~= views);
    while at < pairs.len()
        invariant
            at <= pairs@.len(),
            views == pairs_view(pairs@),
            first_value(views, "peer-id"@) == first_value(views.skip(at as int), "peer-id"@),
        decreases pairs@.len() - at,
    {
        let pair = &pairs[at];
        assert(views.skip(at as int)[0] == (pair.0@, pair.1@));
        if same(pair.0.as_str(), "peer-id") {
            return Some(pair.1.clone());
        }
        assert(views.skip(at as int).drop_first() =~= views.skip(at + 1));
        at = at + 1;
    }
    None
}

/// What a signaller tells its user, or asks of the connection.
#[derive(Debug)]
pub enum Action {
    /// Send a message to the server.
    Send(IncomingMessage),
    /// A producer was added.
    ProducerAdded { peer_id: String, meta: Option<Value> },
    /// A producer was removed.
    ProducerRemoved { peer_id: String, meta: Option<Value> },
    /// The session ended.
    SessionEnded { peer_id: String },
    /// The peer sent an offer.
    SdpOffer { peer_id: String, sdp: String },
    /// The peer sent an ICE candidate.
    HandleIce { peer_id: String, sdp_m_line_index: u32, candidate: String },
    /// Something went wrong.
    Error { message: String },
}

/// The mathematical value of an `Action`.
pub enum ActionView {
    Send(IncomingMessageView),
    ProducerAdded { peer_id: Seq<char>, meta: Option<Value> },
    ProducerRemoved { peer_id: Seq<char>, meta: Option<Value> },
    SessionEnded { peer_id: Seq<char> },
    SdpOffer { peer_id: Seq<char>, sdp: Seq<char> },
    HandleIce { peer_id: Seq<char>, sdp_m_line_index: u32, candidate: Seq<char> },
    Error { message: Seq<char> },
}

impl View for Action {
    type V = ActionView;

    open spec fn view(&self) -> ActionView {
        match *self {
            Action::Send(message) => ActionView::Send(message@),
            Action::ProducerAdded { peer_id, meta } => ActionView::ProducerAdded {
                peer_id: peer_id@,
                meta,
            },
            Action::ProducerRemoved { peer_id, meta } => ActionView::ProducerRemoved {
                peer_id: peer_id@,
                meta,
            },
            Action::SessionEnded { peer_id } => ActionView::SessionEnded { peer_id: peer_id@ },
            Action::SdpOffer { peer_id, sdp } => ActionView::SdpOffer {
                peer_id: peer_id@,
                sdp: sdp@,
            },
            Action::HandleIce { peer_id, sdp_m_line_index, candidate } => ActionView::HandleIce {
                peer_id: peer_id@,
                sdp_m_line_index,
                candidate: candidate@,
            },
            Action::Error { message } => ActionView::Error { message: message@ },
        }
    }
}

/// The values of some actions.
pub open spec fn actions_view(actions: Seq<Action>) -> Seq<ActionView> {
    actions.map_values(|action: Action| action@)
}

/// What of some metadata is passed on: objects alone.
pub open spec fn objects_only(meta: Option<Value>) -> Option<Value> {
    match meta {
        None => None,
        Some(value) => if json_is_object(value) {
            Some(value)
        } else {
            None
        },
    }
}

/// Passes metadata on if it is an object.
pub fn keep_object(meta: Option<Value>) -> (kept: Option<Value>)
    ensures
        kept == objects_only(meta),
{
    match meta {
        None => None,
        Some(value) => {
            let answer = value.is_object();
            keep_if(value, answer)
        },
    }
}

/// Passes a value on, or not.
pub fn keep_if(value: Value, keep: bool) -> (kept: Option<Value>)
    ensures
        kept == (if keep {
            Some(value)
        } else {
            None
        }),
{
    if keep {
        Some(value)
    } else {
        None
    }
}

/// A frame of the connection.
#[derive(Debug)]
pub enum Frame {
    Text(String),
    Close,
    Other,
}

/// What a frame calls for.
#[derive(Debug)]
pub enum FrameStep {
    /// Reading the text as a message.
    Read(String),
    /// Nothing.
    Skip,
    /// The end of the connection.
    Stop,
    /// Telling of an error, and the end of the connection.
    Fail(String),
}

/// Decides what a frame, or the failure to receive one, calls for.
pub fn on_frame(frame: Result<Frame, String>) -> (step: FrameStep)
    ensures
        match frame {
            Ok(Frame::Text(text)) => step == FrameStep::Read(text),
            Ok(Frame::Close) => step is Stop,
            Ok(Frame::Other) => step is Skip,
            Err(reason) => step matches FrameStep::Fail(message) && message@
                == "Error receiving: "@ + reason@,
        },
{
    match frame {
        Ok(Frame::Text(text)) => FrameStep::Read(text),
        Ok(Frame::Close) => FrameStep::Stop,
        Ok(Frame::Other) => FrameStep::Skip,
        Err(reason) => FrameStep::Fail("Error receiving: ".to_owned().concat(reason.as_str())),
    }
}

/// What a text that is no message of the server calls for.
pub fn on_unknown_message(text: &str) -> (action: Action)
    ensures
        action@ == (ActionView::Error { message: "Unknown message from server: "@ + text@ }),
{
    Action::Error { message: "Unknown message from server: ".to_owned().concat(text) }
}

/// What an offer that cannot be read calls for, besides the end of the connection.
pub fn on_unreadable_offer(sdp: &str, reason: &str) -> (action: Action)
    ensures
        action@ == (ActionView::Error {
            message: "Error parsing SDP: "@ + sdp@ + " "@ + reason@,
        }),
{
    Action::Error {
        message: "Error parsing SDP: ".to_owned().concat(sdp).concat(" ").concat(reason),
    }
}

/// What a message that could not be handed to the connection calls for.
pub fn on_unsent(reason: &str) -> (action: Action)
    ensures
        action@ == (ActionView::Error { message: "Error: "@ + reason@ }),
{
    Action::Error { message: "Error: ".to_owned().concat(reason) }
}

/// A client of a signalling server.
#[derive(Debug)]
pub struct Signaller {
    /// Where the server is, and, in its query, the peer to receive from.
    pub address: String,
    /// The file with the certificates to trust.
    pub cafile: Option<String>,
    /// Whether the client only listens.
    pub listener: bool,
    /// Whether there is a connection to send messages on.
    pub connected: bool,
}

/// What can go wrong before a connection is tried.
#[derive(Debug)]
pub enum ConnectError {
    /// The address names no peer.
    NoPeerId,
    /// The address is no URL.
    BadAddress(String),
}

impl ConnectError {
    /// The text that stands for the error.
    pub open spec fn text(self) -> Seq<char> {
        match self {
            ConnectError::NoPeerId => "No peer id set"@,
            ConnectError::BadAddress(reason) => reason@,
        }
    }

    /// The text that stands for the error.
    pub fn message(&self) -> (message: String)
        ensures
            message@ == self.text(),
    {
        match self {
            ConnectError::NoPeerId => "No peer id set".to_owned(),
            ConnectError::BadAddress(reason) => reason.clone(),
        }
    }
}

/// A message to a peer, from the consumer in a session.
pub open spec fn to_producer(peer_id: Seq<char>, peer_message: PeerMessageInnerView) -> (
    IncomingMessageView) {
    IncomingMessageView::Peer(
        PeerMessageView::Consumer(PeerMessageInfoView { peer_id, peer_message }),
    )
}

impl Signaller {
    /// Where the messages of the client go: nowhere without a connection.
    pub open spec fn sent(self, message: IncomingMessageView) -> Seq<ActionView> {
        if self.connected {
            seq![ActionView::Send(message)]
        } else {
            Seq::empty()
        }
    }

    /// Whether a message is one that a server sends to a consumer.
    pub open spec fn expects(self, message: OutgoingMessageView) -> bool {
        match message {
            OutgoingMessageView::StartSession { .. } => false,
            OutgoingMessageView::Peer(PeerMessageView::Consumer(info)) => !(info.peer_message
                matches PeerMessageInnerView::Sdp(SdpMessageView::Answer { .. })),
            OutgoingMessageView::Peer(PeerMessageView::Producer(info)) => !(info.peer_message
                matches PeerMessageInnerView::Sdp(SdpMessageView::Answer { .. })),
            _ => true,
        }
    }

    /// Whether a message makes the client start a session.
    pub open spec fn starts_session(self, message: OutgoingMessageView) -> bool {
        !self.listener && message matches OutgoingMessageView::Registered(
            RegisteredMessageView::Consumer { .. },
        )
    }

    /// What a peer's message calls for.
    pub open spec fn on_peer(self, info: PeerMessageInfoView) -> Seq<ActionView> {
        match info.peer_message {
            PeerMessageInnerView::Sdp(SdpMessageView::Offer { sdp }) => seq![
                ActionView::SdpOffer { peer_id: info.peer_id, sdp },
            ],
            PeerMessageInnerView::Sdp(SdpMessageView::Answer { .. }) => Seq::empty(),
            PeerMessageInnerView::Ice { candidate, sdp_m_line_index } => seq![
                ActionView::HandleIce { peer_id: info.peer_id, sdp_m_line_index, candidate },
            ],
        }
    }

    /// What a message of the server calls for, in order.
    pub open spec fn reaction(self, message: OutgoingMessageView, meta: Option<Value>) -> Seq<
        ActionView,
    > {
        match message {
            OutgoingMessageView::Registered(RegisteredMessageView::Consumer { .. }) => (
            if self.listener {
                Seq::empty()
            } else {
                self.sent(
                    IncomingMessageView::StartSession { peer_id: peer_id_in(self.address@)->0 },
                )
            }) + self.sent(IncomingMessageView::Register(RegisterMessage::Listener { meta })),
            OutgoingMessageView::ProducerAdded { peer_id, meta } => seq![
                ActionView::ProducerAdded { peer_id, meta: objects_only(meta) },
            ],
            OutgoingMessageView::ProducerRemoved { peer_id, meta } => seq![
                ActionView::ProducerRemoved { peer_id, meta: objects_only(meta) },
            ],
            OutgoingMessageView::EndSession(EndSessionMessageView::Producer { peer_id }) => seq![
                ActionView::SessionEnded { peer_id },
            ],
            OutgoingMessageView::EndSession(EndSessionMessageView::Consumer { peer_id }) => seq![
                ActionView::SessionEnded { peer_id },
            ],
            OutgoingMessageView::Peer(PeerMessageView::Consumer(info)) => self.on_peer(info),
            OutgoingMessageView::Peer(PeerMessageView::Producer(info)) => self.on_peer(info),
            OutgoingMessageView::Error { details } => seq![
                ActionView::Error { message: "Error message from server: "@ + details },
            ],
            _ => Seq::empty(),
        }
    }

    /// A client that knows no server yet.
    pub fn default() -> (signaller: Signaller)
        ensures
            signaller.address@ == ""@,
            signaller.cafile is None,
            !signaller.listener,
            !signaller.connected,
    {
        Signaller { address: "".to_owned(), cafile: None, listener: false, connected: false }
    }

    /// The address as a URL, in its normal form, or the name of what is wrong with
    /// it.
    pub fn uri(&self) -> (uri: Result<String, String>)
        ensures
            result_view(uri) == url_parsed(self.address@),
    {
        parse(self.address.as_str())
    }

    /// The peer that the address names.
    pub fn peer_id(&self) -> (id: Option<String>)
        ensures
            option_view(id) == peer_id_in(self.address@),
    {
        match self.uri() {
            Ok(_) => find_peer_id(&query_pairs(self.address.as_str())),
            Err(_) => None,
        }
    }

    /// Where to connect to: the address without its query. One who does not only
    /// listen has to know the peer to receive from.
    pub fn connect(&self) -> (target: Result<String, ConnectError>)
        ensures
            ({
                let missing = !self.listener && peer_id_in(self.address@) is None;
                match target {
                    Ok(uri) => !missing && is_url(self.address@) && uri@ == url_without_query(
                        self.address@,
                    ),
                    Err(ConnectError::NoPeerId) => missing,
                    Err(ConnectError::BadAddress(reason)) => !missing && url_parsed(self.address@)
                        == Err::<Seq<char>, _>(reason@),
                }
            }),
    {
        if !self.listener {
            if self.peer_id().is_none() {
                return Err(ConnectError::NoPeerId);
            }
        }
        match self.uri() {
            Ok(_) => Ok(without_query(self.address.as_str())),
            Err(reason) => Err(ConnectError::BadAddress(reason)),
        }
    }

    /// There is a connection now.
    pub fn on_connected(&mut self)
        ensures
            *final(self) == (Signaller { connected: true, ..*old(self) }),
    {
        self.connected = true;
    }

    /// Gives the connection up. Tells whether there was one.
    pub fn stop(&mut self) -> (was_connected: bool)
        ensures
            was_connected == old(self).connected,
            *final(self) == (Signaller { connected: false, ..*old(self) }),
    {
        let was_connected = self.connected;
        self.connected = false;
        was_connected
    }

    /// The message that a client sends first.
    pub fn register(&self, meta: Option<Value>) -> (message: IncomingMessage)
        ensures
            message@ == IncomingMessageView::Register(RegisterMessage::Consumer { meta }),
    {
        IncomingMessage::Register(RegisterMessage::Consumer { meta })
    }

    /// Hands a message to the connection, if there is one.
    pub fn send(&self, msg: IncomingMessage) -> (actions: Vec<Action>)
        ensures
            actions_view(actions@) == self.sent(msg@),
    {
        let mut actions: Vec<Action> = Vec::new();
        if self.connected {
            actions.push(Action::Send(msg));
        }
        assert(actions_view(actions@) =~= self.sent(msg@));
        actions
    }

    /// Asks for a session with the peer.
    pub fn start_session(&self) -> (actions: Vec<Action>)
        requires
            peer_id_in(self.address@) is Some,
        ensures
            actions_view(actions@) == self.sent(
                IncomingMessageView::StartSession { peer_id: peer_id_in(self.address@)->0 },
            ),
    {
        let peer_id = self.peer_id().unwrap();
        self.send(IncomingMessage::StartSession(StartSessionMessage { peer_id }))
    }

    /// Sends an ICE candidate to the peer. The line's index has to be there; the
    /// media's identifier is not used yet.
    pub fn handle_ice(
        &self,
        candidate: &str,
        sdp_m_line_index: Option<u32>,
        _sdp_mid: Option<String>,
    ) -> (actions: Vec<Action>)
        requires
            peer_id_in(self.address@) is Some,
            sdp_m_line_index is Some,
        ensures
            actions_view(actions@) == self.sent(
                to_producer(
                    peer_id_in(self.address@)->0,
                    PeerMessageInnerView::Ice {
                        candidate: candidate@,
                        sdp_m_line_index: sdp_m_line_index->0,
                    },
                ),
            ),
    {
        let peer_id = self.peer_id().unwrap();
        self.send(
            IncomingMessage::Peer(
                PeerMessage::Consumer(
                    PeerMessageInfo {
                        peer_id,
                        peer_message: PeerMessageInner::Ice {
                            candidate: candidate.to_owned(),
                            sdp_m_line_index: sdp_m_line_index.unwrap(),
                        },
                    },
                ),
            ),
        )
    }

    /// Sends an answer to the peer.
    pub fn handle_sdp(&self, sdp: &str) -> (actions: Vec<Action>)
        requires
            peer_id_in(self.address@) is Some,
        ensures
            actions_view(actions@) == self.sent(
                to_producer(
                    peer_id_in(self.address@)->0,
                    PeerMessageInnerView::Sdp(SdpMessageView::Answer { sdp: sdp@ }),
                ),
            ),
    {
        let peer_id = self.peer_id().unwrap();
        self.send(
            IncomingMessage::Peer(
                PeerMessage::Consumer(
                    PeerMessageInfo {
                        peer_id,
                        peer_message: PeerMessageInner::Sdp(
                            SdpMessage::Answer { sdp: sdp.to_owned() },
                        ),
                    },
                ),
            ),
        )
    }

    /// Sends an ICE candidate that the own side gathered.
    pub fn add_ice(
        &self,
        candidate: &str,
        sdp_m_line_index: Option<u32>,
        sdp_mid: Option<String>,
    ) -> (actions: Vec<Action>)
        requires
            peer_id_in(self.address@) is Some,
            sdp_m_line_index is Some,
        ensures
            actions_view(actions@) == self.sent(
                to_producer(
                    peer_id_in(self.address@)->0,
                    PeerMessageInnerView::Ice {
                        candidate: candidate@,
                        sdp_m_line_index: sdp_m_line_index->0,
                    },
                ),
            ),
    {
        self.handle_ice(candidate, sdp_m_line_index, sdp_mid)
    }

    /// What a peer's message calls for.
    fn receive_peer(&self, info: PeerMessageInfo) -> (actions: Vec<Action>)
        requires
            self.expects(OutgoingMessageView::Peer(PeerMessageView::Consumer(info@))),
        ensures
            actions_view(actions@) == self.on_peer(info@),
    {
        let ghost view = info@;
        let mut actions: Vec<Action> = Vec::new();
        match info.peer_message {
            PeerMessageInner::Sdp(SdpMessage::Offer { sdp }) => {
                actions.push(Action::SdpOffer { peer_id: info.peer_id, sdp });
            },
            PeerMessageInner::Sdp(SdpMessage::Answer { .. }) => {},
            PeerMessageInner::Ice { candidate, sdp_m_line_index } => {
                actions.push(
                    Action::HandleIce { peer_id: info.peer_id, sdp_m_line_index, candidate },
                );
            },
        }
        assert(actions_view(actions@) =~= self.on_peer(view));
        actions
    }

    /// Whether a message is one that a server sends to a consumer.
    pub fn is_expected(&self, message: &OutgoingMessage) -> (answer: bool)
        ensures
            answer == self.expects(message@),
    {
        match message {
            OutgoingMessage::StartSession { .. } => false,
            OutgoingMessage::Peer(PeerMessage::Consumer(info)) => match &info.peer_message {
                PeerMessageInner::Sdp(SdpMessage::Answer { .. }) => false,
                _ => true,
            },
            OutgoingMessage::Peer(PeerMessage::Producer(info)) => match &info.peer_message {
                PeerMessageInner::Sdp(SdpMessage::Answer { .. }) => false,
                _ => true,
            },
            _ => true,
        }
    }

    /// What a message of the server calls for. `meta` is what the client told
    /// about itself when it registered.
    pub fn receive(&self, message: OutgoingMessage, meta: &Option<Value>) -> (actions: Vec<Action>)
        requires
            self.expects(message@),
            self.starts_session(message@) ==> peer_id_in(self.address@) is Some,
        ensures
            actions_view(actions@) == self.reaction(message@, *meta),
    {
        let ghost view = message@;
        let mut actions: Vec<Action> = Vec::new();
        match message {
            OutgoingMessage::Registered(RegisteredMessage::Consumer { .. }) => {
                if !self.listener {
                    actions = self.start_session();
                }
                let ghost first = actions@;
                let mut more = self.send(
                    IncomingMessage::Register(RegisterMessage::Listener { meta: meta.clone() }),
                );
                let ghost second = more@;
                actions.append(&mut more);
                assert(actions_view(first + second) =~= actions_view(first) + actions_view(
                    second,
                ));
            },
            OutgoingMessage::Registered(_) => {},
            OutgoingMessage::ProducerAdded { peer_id, meta } => {
                actions.push(Action::ProducerAdded { peer_id, meta: keep_object(meta) });
            },
            OutgoingMessage::ProducerRemoved { peer_id, meta } => {
                actions.push(Action::ProducerRemoved { peer_id, meta: keep_object(meta) });
            },
            OutgoingMessage::EndSession(EndSessionMessage::Producer { peer_id }) => {
                actions.push(Action::SessionEnded { peer_id });
            },
            OutgoingMessage::EndSession(EndSessionMessage::Consumer { peer_id }) => {
                actions.push(Action::SessionEnded { peer_id });
            },
            OutgoingMessage::Peer(PeerMessage::Consumer(info)) => {
                actions = self.receive_peer(info);
            },
            OutgoingMessage::Peer(PeerMessage::Producer(info)) => {
                actions = self.receive_peer(info);
            },
            OutgoingMessage::Error { details } => {
                actions.push(
                    Action::Error {
                        message: "Error message from server: ".to_owned().concat(details.as_str()),
                    },
                );
            },
            _ => {},
        }
        assert(actions_view(actions@) =~= self.reaction(view, *meta));
        actions
    }

    /// What the own side asks for, where the address names a peer to ask.
    pub fn request(&self, request: Request) -> (actions: Option<Vec<Action>>)
        ensures
            actions is Some <==> peer_id_in(self.address@) is Some,
            actions matches Some(list) ==> actions_view(list@) == self.sent(
                request.message(peer_id_in(self.address@)->0),
            ),
    {
        if self.peer_id().is_none() {
            return None;
        }
        let actions = match request {
            Request::StartSession => self.start_session(),
            Request::HandleIce { candidate, sdp_m_line_index } => self.handle_ice(
                candidate.as_str(),
                Some(sdp_m_line_index),
                None,
            ),
            Request::AddIce { candidate, sdp_m_line_index } => self.add_ice(
                candidate.as_str(),
                Some(sdp_m_line_index),
                None,
            ),
            Request::HandleSdp { sdp } => self.handle_sdp(sdp.as_str()),
        };
        Some(actions)
    }

    /// What a message of the server calls for, unless it calls for a session and
    /// the address names no peer.
    pub fn try_receive(&self, message: OutgoingMessage, meta: &Option<Value>) -> (actions: Option<
        Vec<Action>,
    >)
        requires
            self.expects(message@),
        ensures
            actions is None <==> self.starts_session(message@) && peer_id_in(self.address@) is None,
            actions matches Some(list) ==> actions_view(list@) == self.reaction(message@, *meta),
    {
        let mut starts: bool = false;
        if let OutgoingMessage::Registered(RegisteredMessage::Consumer { .. }) = &message {
            starts = !self.listener;
        }
        if starts && self.peer_id().is_none() {
            return None;
        }
        Some(self.receive(message, meta))
    }
}

/// What the own side can ask of a signaller.
#[derive(Debug)]
pub enum Request {
    /// A session with the peer.
    StartSession,
    /// Passing an ICE candidate on.
    HandleIce { candidate: String, sdp_m_line_index: u32 },
    /// Passing on an ICE candidate that was gathered.
    AddIce { candidate: String, sdp_m_line_index: u32 },
    /// Passing an answer on.
    HandleSdp { sdp: String },
}

impl Request {
    /// The message that carries the request to a peer.
    pub open spec fn message(self, peer_id: Seq<char>) -> IncomingMessageView {
        match self {
            Request::StartSession => IncomingMessageView::StartSession { peer_id },
            Request::HandleIce { candidate, sdp_m_line_index } => to_producer(
                peer_id,
                PeerMessageInnerView::Ice { candidate: candidate@, sdp_m_line_index },
            ),
            Request::AddIce { candidate, sdp_m_line_index } => to_producer(
                peer_id,
                PeerMessageInnerView::Ice { candidate: candidate@, sdp_m_line_index },
            ),
            Request::HandleSdp { sdp } => to_producer(
                peer_id,
                PeerMessageInnerView::Sdp(SdpMessageView::Answer { sdp: sdp@ }),
            ),
        }
    }
}

/// Without a connection nothing is sent, whatever the server says.
pub proof fn nothing_is_sent_unconnected(
    signaller: Signaller,
    message: OutgoingMessageView,
    meta: Option<Value>,
    at: int,
)
    requires
        !signaller.connected,
        0 <= at < signaller.reaction(message, meta).len(),
    ensures
        !(signaller.reaction(message, meta)[at] is Send),
{
}

/// One who only listens starts no session, whatever the server says.
pub proof fn listeners_start_no_session(
    signaller: Signaller,
    message: OutgoingMessageView,
    meta: Option<Value>,
    at: int,
)
    requires
        signaller.listener,
        0 <= at < signaller.reaction(message, meta).len(),
    ensures
        !(signaller.reaction(message, meta)[at] matches ActionView::Send(
            IncomingMessageView::StartSession { .. },
        )),
{
}

/// Of several pairs with a key, the first counts, and without one there is no value.
pub proof fn the_first_pair_counts(
    pairs: Seq<(Seq<char>, Seq<char>)>,
    key: Seq<char>,
    at: int,
)
    requires
        0 <= at <= pairs.len(),
        forall|i: int| 0 <= i < at ==> (#[trigger] pairs[i]).0 != key,
        at < pairs.len() ==> pairs[at].0 == key,
    ensures
        at < pairs.len() ==> first_value(pairs, key) == Some(pairs[at].1),
        at == pairs.len() ==> first_value(pairs, key) is None,
    decreases pairs.len(),
{
    if at > 0 {
        let rest = pairs.drop_first();
        assert(pairs[0].0 != key);
        assert forall|i: int| 0 <= i < at - 1 implies (#[trigger] rest[i]).0 != key by {
            assert(rest[i] == pairs[i + 1]);
        }
        the_first_pair_counts(rest, key, at - 1);
    }
}

/// The peer that a URL names is the first value of its query that has the key for it. A
/// text that is no URL names none.
pub proof fn addresses_name_peers_in_their_query(address: Seq<char>)
    ensures
        url_parsed(address) is Err ==> peer_id_in(address) is None,
        url_parsed(address) is Ok ==> peer_id_in(address) == first_value(
            url_query_pairs(address),
            "peer-id"@,
        ),
{
}

/// Texts and actions are looked at as they are.
pub proof fn actions_are_kept(text: String, actions: Seq<Action>)
    ensures
        option_view(Some(text)) == Some(text@),
        option_view(None) is None,
        actions_view(actions).len() == actions.len(),
        forall|i: int|
            0 <= i < actions.len() ==> #[trigger] actions_view(actions)[i] == actions[i]@,
{
}

/// A client that is confirmed as a consumer asks for its session, unless it only
/// listens, and then to listen; both only with a connection. No other message makes it
/// send anything.
pub proof fn confirmed_clients_ask_for_their_session(
    signaller: Signaller,
    id: Seq<char>,
    told: Option<Value>,
    meta: Option<Value>,
)
    ensures
        ({
            let message = OutgoingMessageView::Registered(
                RegisteredMessageView::Consumer { peer_id: id, meta: told },
            );
            let actions = signaller.reaction(message, meta);
            let listen = ActionView::Send(
                IncomingMessageView::Register(RegisterMessage::Listener { meta }),
            );
            let ask = ActionView::Send(
                IncomingMessageView::StartSession { peer_id: peer_id_in(signaller.address@)->0 },
            );
            &&& signaller.starts_session(message) <==> !signaller.listener
            &&& !signaller.connected ==> actions.len() == 0
            &&& signaller.connected && signaller.listener ==> actions == seq![listen]
            &&& signaller.connected && !signaller.listener ==> actions == seq![ask, listen]
        }),
{
    let message = OutgoingMessageView::Registered(
        RegisteredMessageView::Consumer { peer_id: id, meta: told },
    );
    let listen = ActionView::Send(
        IncomingMessageView::Register(RegisterMessage::Listener { meta }),
    );
    let actions = signaller.reaction(message, meta);
    if signaller.connected && signaller.listener {
        assert(actions =~= seq![listen]);
    }
}

/// What a client tells of any other message: of a producer that came or went, that it
/// did, with metadata only where that is an object; of a session that ended, whichever
/// side ended it; of an offer or an ICE candidate, what the peer sent; of an error, its
/// text. Of confirmations and lists it tells nothing.
pub proof fn clients_tell_what_the_server_says(
    signaller: Signaller,
    message: OutgoingMessageView,
    meta: Option<Value>,
)
    requires
        !(message matches OutgoingMessageView::Registered(RegisteredMessageView::Consumer { .. })),
    ensures
        ({
            let actions = signaller.reaction(message, meta);
            let kept = |told: Option<Value>|
                match told {
                    Some(value) => if json_is_object(value) {
                        Some(value)
                    } else {
                        None
                    },
                    None => None,
                };
            &&& !signaller.starts_session(message)
            &&& match message {
                OutgoingMessageView::ProducerAdded { peer_id, meta } => actions == seq![
                    ActionView::ProducerAdded { peer_id, meta: kept(meta) },
                ],
                OutgoingMessageView::ProducerRemoved { peer_id, meta } => actions == seq![
                    ActionView::ProducerRemoved { peer_id, meta: kept(meta) },
                ],
                OutgoingMessageView::EndSession(EndSessionMessageView::Producer { peer_id }) => {
                    actions == seq![ActionView::SessionEnded { peer_id }]
                },
                OutgoingMessageView::EndSession(EndSessionMessageView::Consumer { peer_id }) => {
                    actions == seq![ActionView::SessionEnded { peer_id }]
                },
                OutgoingMessageView::Peer(PeerMessageView::Producer(info)) => {
                    &&& actions == signaller.reaction(
                        OutgoingMessageView::Peer(PeerMessageView::Consumer(info)),
                        meta,
                    )
                    &&& match info.peer_message {
                        PeerMessageInnerView::Sdp(SdpMessageView::Offer { sdp }) => actions == seq![
                            ActionView::SdpOffer { peer_id: info.peer_id, sdp },
                        ],
                        PeerMessageInnerView::Sdp(SdpMessageView::Answer { .. }) => {
                            actions.len() == 0
                        },
                        PeerMessageInnerView::Ice { candidate, sdp_m_line_index } => actions
                            == seq![
                            ActionView::HandleIce {
                                peer_id: info.peer_id,
                                sdp_m_line_index,
                                candidate,
                            },
                        ],
                    }
                },
                OutgoingMessageView::Peer(PeerMessageView::Consumer(_)) => true,
                OutgoingMessageView::Error { details } => actions == seq![
                    ActionView::Error { message: "Error message from server: "@ + details },
                ],
                _ => actions.len() == 0,
            }
        }),
{
}

/// A server sends a client neither requests for sessions nor answers; everything else is
/// expected.
pub proof fn clients_expect_no_requests(
    signaller: Signaller,
    message: OutgoingMessageView,
    info: PeerMessageInfoView,
    id: Seq<char>,
)
    ensures
        !signaller.expects(OutgoingMessageView::StartSession { peer_id: id }),
        !(message is StartSession) && !(message is Peer) ==> signaller.expects(message),
        ({
            let is_answer = info.peer_message matches PeerMessageInnerView::Sdp(
                SdpMessageView::Answer { .. },
            );
            let from_consumer = OutgoingMessageView::Peer(PeerMessageView::Consumer(info));
            let from_producer = OutgoingMessageView::Peer(PeerMessageView::Producer(info));
            &&& signaller.expects(from_consumer) <==> !is_answer
            &&& signaller.expects(from_producer) <==> !is_answer
        }),
{
}

/// What a client is asked to send it sends to the peer, as the consumer of the session:
/// exactly one message with a connection, and none without.
pub proof fn clients_send_what_they_are_asked(
    signaller: Signaller,
    request: Request,
    peer_id: Seq<char>,
)
    ensures
        ({
            let message = request.message(peer_id);
            let carried = |peer_message: PeerMessageInnerView|
                IncomingMessageView::Peer(
                    PeerMessageView::Consumer(PeerMessageInfoView { peer_id, peer_message }),
                );
            &&& signaller.connected ==> signaller.sent(message) == seq![ActionView::Send(message)]
            &&& !signaller.connected ==> signaller.sent(message).len() == 0
            &&& match request {
                Request::StartSession => message == (IncomingMessageView::StartSession { peer_id }),
                Request::HandleIce { candidate, sdp_m_line_index } => message == carried(
                    PeerMessageInnerView::Ice { candidate: candidate@, sdp_m_line_index },
                ),
                Request::AddIce { candidate, sdp_m_line_index } => message == carried(
                    PeerMessageInnerView::Ice { candidate: candidate@, sdp_m_line_index },
                ),
                Request::HandleSdp { sdp } => message == carried(
                    PeerMessageInnerView::Sdp(SdpMessageView::Answer { sdp: sdp@ }),
                ),
            }
        }),
{
}

/// A message to the producer of a session is labelled as the consumer's.
pub proof fn messages_to_producers_are_a_consumers(
    peer_id: Seq<char>,
    peer_message: PeerMessageInnerView,
)
    ensures
        to_producer(peer_id, peer_message) == IncomingMessageView::Peer(
            PeerMessageView::Consumer(PeerMessageInfoView { peer_id, peer_message }),
        ),
{
}

/// Errors before a connection read as they are told.
pub proof fn connect_errors_are_worded(reason: String)
    ensures
        ConnectError::NoPeerId.text() == "No peer id set"@,
        ConnectError::BadAddress(reason).text() == reason@,
{
}

/// What metadata is passed on: that which is an object, unchanged.
pub proof fn only_objects_are_passed_on(value: Value)
    ensures
        objects_only(None) is None,
        json_is_object(value) ==> objects_only(Some(value)) == Some(value),
        !json_is_object(value) ==> objects_only(Some(value)) is None,
{
}

/// Actions say what they hold.
pub proof fn actions_say_what_they_hold(action: Action)
    ensures
        match action {
            Action::Send(message) => action@ == ActionView::Send(message@),
            Action::ProducerAdded { peer_id, meta } => action@ == (ActionView::ProducerAdded {
                peer_id: peer_id@,
                meta,
            }),
            Action::ProducerRemoved { peer_id, meta } => action@ == (ActionView::ProducerRemoved {
                peer_id: peer_id@,
                meta,
            }),
            Action::SessionEnded { peer_id } => action@ == (ActionView::SessionEnded {
                peer_id: peer_id@,
            }),
            Action::SdpOffer { peer_id, sdp } => action@ == (ActionView::SdpOffer {
                peer_id: peer_id@,
                sdp: sdp@,
            }),
            Action::HandleIce { peer_id, sdp_m_line_index, candidate } => action@
                == (ActionView::HandleIce {
                peer_id: peer_id@,
                sdp_m_line_index,
                candidate: candidate@,
            }),
            Action::Error { message } => action@ == (ActionView::Error { message: message@ }),
        },
{
}

} // verus!
