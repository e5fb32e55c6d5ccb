//! The server: who is connected, and what becomes of what they send.
use super::protocol::OutgoingMessage;
use crate::numbers::{decimal, to_decimal};
use crate::peers::{lemma_with, lemma_without, with, without, Id, PeerSet};
use vstd::prelude::*;

verus! {

/// Whether a character is a hexadecimal digit, in lower case.
pub open spec fn is_hex(c: char) -> bool {
    '0' as int <= c as int <= '9' as int || 'a' as int <= c as int <= 'f' as int
}

/// Whether a text is written as identifiers of connections are: five groups of
/// hexadecimal digits with hyphens between them, and with the marks of random
/// identifiers.
pub open spec fn is_connection_id(text: Seq<char>) -> bool {
    &&& text.len() == 36
    &&& forall|i: int|
        0 <= i < 36 ==> if i == 8 || i == 13 || i == 18 || i == 23 {
            #[trigger] text[i] == '-'
        } else {
            is_hex(text[i])
        }
    &&& text[14] == '4'
    &&& text[19] == '8' || text[19] == '9' || text[19] == 'a' || text[19] == 'b'
}

/// `uuid::Uuid::new_v4`, written with hyphens in lower case as `Uuid` is
/// displayed. Which identifier comes is up to chance, so nothing is said of it
/// but how it is written.
#[verifier::external_body]
fn random_id() -> (id: String)
    ensures
        is_connection_id(id@),
{
    uuid::Uuid::new_v4().to_string()
}

/// What can go wrong in the server.
#[derive(Debug, PartialEq, Eq, Clone, Copy, Structural)]
pub enum SignallingServerError {
    InvalidCertificate,
}

impl SignallingServerError {
    /// The text that stands for the error.
    pub fn message(self) -> (message: &'static str)
        ensures
            message@ == "Invalid certificate"@,
    {
        "Invalid certificate"
    }
}

/// A message on its way to a peer.
#[derive(Debug)]
pub struct Delivery {
    pub peer_id: String,
    pub message: OutgoingMessage,
}

/// What arrives on a connection.
#[derive(Debug)]
pub enum Frame {
    Text(String),
    Close,
    Other,
}

/// What becomes of a frame.
#[derive(Debug)]
pub enum FrameStep {
    /// The text is handled as a message.
    Handle(String),
    /// Nothing.
    Ignore,
    /// The peer is removed.
    Close,
}

/// What becomes of a frame, or of the failure to receive one.
pub open spec fn step_for(frame: Result<Frame, String>) -> FrameStep {
    match frame {
        Ok(Frame::Text(text)) => FrameStep::Handle(text),
        Ok(Frame::Close) => FrameStep::Close,
        Ok(Frame::Other) => FrameStep::Ignore,
        Err(_) => FrameStep::Close,
    }
}

/// Decides what becomes of a frame, or of the failure to receive one.
pub fn on_frame(frame: Result<Frame, String>) -> (step: FrameStep)
    ensures
        step == step_for(frame),
{
    match frame {
        Ok(Frame::Text(text)) => FrameStep::Handle(text),
        Ok(Frame::Close) => FrameStep::Close,
        Ok(Frame::Other) => FrameStep::Ignore,
        Err(_) => FrameStep::Close,
    }
}

/// What happens on a connection.
pub enum ConnectionEvent {
    /// A text is handled as a message of the peer.
    Handle(Seq<char>),
    /// The peer is removed.
    Remove,
}

/// What happens on a connection that brings some frames, and then no more: each is
/// given the step that is for it, up to the first that closes the connection, and
/// in the end the peer is removed.
pub open spec fn conversation(frames: Seq<Result<Frame, String>>) -> Seq<ConnectionEvent>
    decreases frames.len(),
{
    if frames.len() == 0 {
        seq![ConnectionEvent::Remove]
    } else {
        match step_for(frames.first()) {
            FrameStep::Handle(text) => seq![ConnectionEvent::Handle(text@)] + conversation(
                frames.drop_first(),
            ),
            FrameStep::Ignore => conversation(frames.drop_first()),
            FrameStep::Close => seq![ConnectionEvent::Remove],
        }
    }
}

/// The texts among some frames, in order, as messages to be handled.
pub open spec fn texts_among(frames: Seq<Result<Frame, String>>) -> Seq<ConnectionEvent>
    decreases frames.len(),
{
    if frames.len() == 0 {
        Seq::empty()
    } else {
        let rest = texts_among(frames.drop_first());
        match frames.first() {
            Ok(Frame::Text(text)) => seq![ConnectionEvent::Handle(text@)] + rest,
            _ => rest,
        }
    }
}

/// Whether a frame, or the failure to receive one, ends the connection.
pub open spec fn ends_connection(frame: Result<Frame, String>) -> bool {
    frame is Err || frame matches Ok(Frame::Close)
}

/// Texts are handled in the order in which they arrive, up to the first frame that
/// closes the connection or the first failure. What would come after that counts for
/// nothing, and in the end the peer is removed.
pub proof fn texts_are_handled_until_the_end(frames: Seq<Result<Frame, String>>, end: int)
    requires
        0 <= end <= frames.len(),
        forall|i: int| 0 <= i < end ==> !ends_connection(#[trigger] frames[i]),
        end == frames.len() || ends_connection(frames[end]),
    ensures
        conversation(frames) == texts_among(frames.take(end)).push(ConnectionEvent::Remove),
    decreases frames.len(),
{
    if end > 0 {
        let rest = frames.drop_first();
        assert forall|i: int| 0 <= i < end - 1 implies !ends_connection(#[trigger] rest[i]) by {
            assert(rest[i] == frames[i + 1]);
        }
        texts_are_handled_until_the_end(rest, end - 1);
        assert(!ends_connection(frames[0]));
        assert(frames.take(end).drop_first() =~= rest.take(end - 1));
        assert(frames.take(end).first() == frames.first());
        assert(conversation(frames) =~= texts_among(frames.take(end)).push(
            ConnectionEvent::Remove,
        ));
    } else {
        assert(frames.take(0) =~= Seq::empty());
        assert(conversation(frames) =~= texts_among(frames.take(0)).push(ConnectionEvent::Remove));
    }
}

/// A connection removes its peer exactly once, after everything else.
pub proof fn a_peer_is_removed_once(frames: Seq<Result<Frame, String>>, at: int)
    requires
        0 <= at < conversation(frames).len(),
    ensures
        conversation(frames)[at] is Remove <==> at == conversation(frames).len() - 1,
    decreases frames.len(),
{
    if frames.len() > 0 {
        let rest = frames.drop_first();
        match step_for(frames.first()) {
            FrameStep::Handle(_) => {
                if at > 0 {
                    a_peer_is_removed_once(rest, at - 1);
                } else {
                    lemma_conversation_ends(rest);
                }
            },
            FrameStep::Ignore => {
                a_peer_is_removed_once(rest, at);
            },
            FrameStep::Close => {},
        }
    }
}

/// Something happens on every connection.
proof fn lemma_conversation_ends(frames: Seq<Result<Frame, String>>)
    ensures
        conversation(frames).len() > 0,
    decreases frames.len(),
{
    if frames.len() > 0 {
        lemma_conversation_ends(frames.drop_first());
    }
}

/// Where the server listens.
pub fn listen_address(host: &str, port: u16) -> (address: String)
    ensures
        address@ == host@ + ":"@ + decimal(port as nat),
{
    host.to_owned().concat(":").concat(to_decimal(port as u64).as_str())
}

/// The extendable signalling server.
pub struct SignallingServer {
    peers: PeerSet,
    certificate: Option<String>,
    password: Option<String>,
}

impl SignallingServer {
    /// The peers that are connected, in the order in which they came.
    pub closed spec fn connected(&self) -> Seq<Id> {
        self.peers@
    }

    /// The file with the certificate of the server.
    pub closed spec fn cert(&self) -> Option<String> {
        self.certificate
    }

    /// The password of the certificate.
    pub closed spec fn cert_password(&self) -> Option<String> {
        self.password
    }

    /// No peer is connected twice.
    pub open spec fn wf(&self) -> bool {
        self.connected().no_duplicates()
    }

    /// A server that nobody is connected to.
    pub fn new(cert: Option<String>, cert_password: Option<String>) -> (server: SignallingServer)
        ensures
            server.wf(),
            server.connected().len() == 0,
            server.cert() == cert,
            server.cert_password() == cert_password,
    {
        SignallingServer { peers: PeerSet::new(), certificate: cert, password: cert_password }
    }

    /// The file with the certificate and its password, which is empty unless one
    /// is set. Without a certificate connections are not encrypted.
    pub fn setup_tls(&self) -> (identity: Option<(String, String)>)
        ensures
            identity is Some <==> self.cert() is Some,
            identity matches Some((path, password)) ==> {
                &&& path@ == self.cert()->0@
                &&& password@ == (match self.cert_password() {
                    Some(password) => password@,
                    None => ""@,
                })
            },
    {
        match &self.certificate {
            None => None,
            Some(path) => {
                let password = match &self.password {
                    Some(password) => password.clone(),
                    None => "".to_owned(),
                };
                Some((path.clone(), password))
            },
        }
    }

    /// Whether a peer is connected.
    pub fn is_connected(&self, peer_id: &str) -> (answer: bool)
        requires
            self.wf(),
        ensures
            answer == self.connected().contains(peer_id@),
    {
        self.peers.contains(peer_id)
    }

    /// Lets a peer in under an identifier.
    pub fn add_peer(&mut self, peer_id: String)
        requires
            old(self).wf(),
        ensures
            final(self).wf(),
            final(self).connected() == with(old(self).connected(), peer_id@),
            final(self).cert() == old(self).cert(),
            final(self).cert_password() == old(self).cert_password(),
    {
        let _ = self.peers.insert(peer_id);
    }

    /// Lets a peer in under a new identifier, which chance decides.
    pub fn accept_connection(&mut self) -> (peer_id: String)
        requires
            old(self).wf(),
        ensures
            final(self).wf(),
            is_connection_id(peer_id@),
            final(self).connected() == with(old(self).connected(), peer_id@),
            final(self).cert() == old(self).cert(),
            final(self).cert_password() == old(self).cert_password(),
    {
        let peer_id = random_id();
        self.add_peer(peer_id.clone());
        peer_id
    }

    /// A peer is gone. Tells whether it was connected.
    pub fn remove_peer(&mut self, peer_id: &str) -> (found: bool)
        requires
            old(self).wf(),
        ensures
            final(self).wf(),
            found == old(self).connected().contains(peer_id@),
            final(self).connected() == without(old(self).connected(), peer_id@),
            final(self).cert() == old(self).cert(),
            final(self).cert_password() == old(self).cert_password(),
    {
        self.peers.remove(peer_id)
    }

    /// What a message of a peer is answered by the server itself, given what its
    /// handler made of it: the error, where there was one and the peer is still
    /// connected.
    pub fn handle_message(&self, outcome: Result<(), String>, peer_id: &str) -> (answer: Option<
        Delivery,
    >)
        requires
            self.wf(),
        ensures
            answer is Some <==> outcome is Err && self.connected().contains(peer_id@),
            answer matches Some(delivery) ==> {
                &&& delivery.peer_id@ == peer_id@
                &&& delivery.message matches OutgoingMessage::Error { details } && details@
                    == outcome->Err_0@
            },
    {
        match outcome {
            Ok(_) => None,
            Err(details) => if self.is_connected(peer_id) {
                Some(
                    Delivery {
                        peer_id: peer_id.to_owned(),
                        message: OutgoingMessage::Error { details },
                    },
                )
            } else {
                None
            },
        }
    }
}

/// A peer that was let in is connected until it is removed, and letting it in or
/// removing it concerns no other peer.
pub proof fn connections_are_independent(connected: Seq<Id>, peer_id: Id, other: Id)
    requires
        connected.no_duplicates(),
        other != peer_id,
    ensures
        with(connected, peer_id).contains(peer_id),
        !without(connected, peer_id).contains(peer_id),
        with(connected, peer_id).contains(other) <==> connected.contains(other),
        without(connected, peer_id).contains(other) <==> connected.contains(other),
{
    lemma_with(connected, peer_id);
    lemma_without(connected, peer_id);
}

/// Texts are handled as they are, frames that close the connection and failures end it,
/// and all other frames are ignored.
pub proof fn frames_are_told_apart(text: String, reason: String)
    ensures
        step_for(Ok(Frame::Text(text))) == FrameStep::Handle(text),
        step_for(Ok(Frame::Other)) == FrameStep::Ignore,
        step_for(Ok(Frame::Close)) == FrameStep::Close,
        step_for(Err(reason)) == FrameStep::Close,
        !ends_connection(Ok(Frame::Text(text))),
        !ends_connection(Ok(Frame::Other)),
        ends_connection(Ok(Frame::Close)),
        ends_connection(Err(reason)),
{
}

/// The texts among frames are those of the first frames and then those of the others;
/// one frame has its text, or none.
pub proof fn texts_come_in_order(
    first: Seq<Result<Frame, String>>,
    second: Seq<Result<Frame, String>>,
    frame: Result<Frame, String>,
)
    ensures
        texts_among(first + second) == texts_among(first) + texts_among(second),
        texts_among(seq![frame]) == (match frame {
            Ok(Frame::Text(text)) => seq![ConnectionEvent::Handle(text@)],
            _ => Seq::empty(),
        }),
    decreases first.len(),
{
    let one = seq![frame];
    assert(one.drop_first() =~= Seq::empty());
    assert(one.first() == frame);
    assert(texts_among(one.drop_first()) == Seq::<ConnectionEvent>::empty());
    assert(texts_among(one) =~= (match frame {
        Ok(Frame::Text(text)) => seq![ConnectionEvent::Handle(text@)],
        _ => Seq::empty(),
    }));
    if first.len() == 0 {
        assert(first + second =~= second);
        assert(texts_among(first) + texts_among(second) =~= texts_among(second));
    } else {
        assert((first + second).drop_first() =~= first.drop_first() + second);
        assert((first + second).first() == first.first());
        texts_come_in_order(first.drop_first(), second, frame);
        assert(texts_among(first + second) =~= texts_among(first) + texts_among(second));
    }
}

/// A connection removes its peer in the end, whatever it brings, and right away where it
/// ends with the first frame or brings none.
pub proof fn connections_end_with_a_removal(
    frames: Seq<Result<Frame, String>>,
    end: Result<Frame, String>,
)
    requires
        end is Err || end matches Ok(Frame::Close),
    ensures
        conversation(Seq::empty()) == seq![ConnectionEvent::Remove],
        conversation(seq![end] + frames) == seq![ConnectionEvent::Remove],
        conversation(frames).len() > 0,
        conversation(frames).last() is Remove,
{
    assert((seq![end] + frames).first() == end);
    lemma_conversation_ends(frames);
    a_peer_is_removed_once(frames, conversation(frames).len() - 1);
}

/// Identifiers of connections are five groups of hexadecimal digits, of eight, four,
/// four, four and twelve, with hyphens between them.
pub proof fn connection_ids_are_five_groups(text: Seq<char>, at: int)
    requires
        is_connection_id(text),
        0 <= at < text.len(),
    ensures
        text.len() == 36,
        text[at] == '-' <==> at == 8 || at == 13 || at == 18 || at == 23,
        text[at] != '-' ==> 48 <= text[at] as int <= 57 || 97 <= text[at] as int <= 102,
        text[14] == '4',
{
}

} // verus!
