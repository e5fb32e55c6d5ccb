//! The source element: its settings, its session and its pads.
use super::media::{
    answered_streams, choose_formats, chosen_view, is_original_place, maybe_text, stream_type_of,
    texts, AnsweredMedia, AnsweredStream, ChosenFormat, OfferedMedia, StreamType,
};
use super::signaller::Signaller;
use crate::numbers::{decimal, to_decimal};
use crate::text::same;
use crate::urls::{is_url, lemma_before_colon, parse, scheme, url_parsed, url_scheme};
use vstd::prelude::*;

verus! {

/// The server that tells a source its own address, unless another is asked for.
pub const DEFAULT_STUN_SERVER: &'static str = "stun://stun.l.google.com:19302";

/// Whether the signaller runs.
#[derive(Debug, PartialEq, Eq, Clone, Copy, Structural)]
pub enum SignallerState {
    Started,
    Stopped,
}

/// The state of an element, from the lowest to the highest.
#[derive(Debug, PartialEq, Eq, Clone, Copy, Structural)]
pub enum ElementState {
    Null,
    Ready,
    Paused,
    Playing,
}

/// A step from one state of an element to the next.
#[derive(Debug, PartialEq, Eq, Clone, Copy, Structural)]
pub enum Transition {
    NullToReady,
    ReadyToPaused,
    PausedToPlaying,
    PlayingToPaused,
    PausedToReady,
    ReadyToNull,
    /// A step that leads to the state that the element is in.
    Other,
}

/// What follows once the bin has made a transition.
#[derive(Debug, PartialEq, Eq, Clone, Copy, Structural)]
pub enum AfterChange {
    /// Taking down what was set up.
    Unprepare,
    /// Telling that there is no preroll.
    NoPreroll,
    /// Starting the signaller.
    StartSignaller,
    /// Nothing.
    Nothing,
}

/// What can be wrong with a URI.
#[derive(Debug)]
pub enum UriError {
    /// It cannot be read.
    Unreadable(String),
    /// Its protocol is not one of the source's.
    InvalidProtocol(String),
}

impl UriError {
    /// The text that stands for the error.
    pub open spec fn text(self) -> Seq<char> {
        match self {
            UriError::Unreadable(reason) => reason@,
            UriError::InvalidProtocol(protocol) => "Invalid protocol: "@ + protocol@,
        }
    }

    /// The text that stands for the error.
    pub fn message(&self) -> (message: String)
        ensures
            message@ == self.text(),
    {
        match self {
            UriError::Unreadable(reason) => reason.clone(),
            UriError::InvalidProtocol(protocol) => "Invalid protocol: ".to_owned().concat(
                protocol.as_str(),
            ),
        }
    }
}

/// What the signaller tells.
#[derive(Debug)]
pub enum Signal {
    Error { error: String },
    SessionStarted { session_id: String, peer_id: String },
    SessionEnded { peer_id: String },
    SdpOffer { peer_id: String, sdp: String },
    HandleIce { peer_id: String, sdp_m_line_index: Option<u32>, candidate: String },
}

/// What the source does about a signal.
#[derive(Debug)]
pub enum Response {
    /// It fails with a message.
    Fail(String),
    /// It answers an offer.
    Answer(String),
    /// It takes an ICE candidate for one line.
    AddIceCandidate { sdp_m_line_index: u32, candidate: String },
    /// Nothing more.
    Nothing,
}

/// The protocol of the connection that a protocol of the source stands for.
pub open spec fn socket_scheme(protocol: Seq<char>) -> Option<Seq<char>> {
    if protocol == "gstwebrtc"@ {
        Some("ws"@)
    } else if protocol == "gstwebrtcs"@ {
        Some("wss"@)
    } else {
        None
    }
}

/// A URL with another protocol.
pub open spec fn with_scheme(url: Seq<char>, protocol: Seq<char>, other: Seq<char>) -> Seq<char> {
    other + url.skip(protocol.len() as int)
}

/// The address of the server that a URL of the source stands for.
pub fn socket_address(url: &str, protocol: &str) -> (address: Result<String, UriError>)
    requires
        protocol@.is_prefix_of(url@),
    ensures
        match address {
            Ok(address) => {
                &&& socket_scheme(protocol@) is Some
                &&& address@ == with_scheme(url@, protocol@, socket_scheme(protocol@)->0)
            },
            Err(UriError::InvalidProtocol(name)) => {
                &&& socket_scheme(protocol@) is None
                &&& name@ == protocol@
            },
            Err(UriError::Unreadable(_)) => false,
        },
{
    let other = if same(protocol, "gstwebrtc") {
        "ws"
    } else if same(protocol, "gstwebrtcs") {
        "wss"
    } else {
        return Err(UriError::InvalidProtocol(protocol.to_owned()));
    };
    let length: usize = protocol.unicode_len();
    let whole: usize = url.unicode_len();
    let rest = url.substring_char(length, whole);
    assert(url@.subrange(length as int, whole as int) =~= url@.skip(protocol@.len() as int));
    Ok(other.to_owned().concat(rest))
}

/// One stream that a pad may belong to: whether the pad's capabilities fit it,
/// and its identifier.
#[derive(Debug)]
pub struct Candidate {
    pub fits: bool,
    pub stream_id: Option<String>,
}

/// Whether a pad, which carries streams with some identifiers, carries a stream.
pub open spec fn carries(pad: Seq<String>, stream_id: Option<String>) -> bool {
    stream_id matches Some(id) && texts(pad).contains(id@)
}

/// Whether a pad can belong to a stream: it fits, and some pad does not carry the
/// stream yet.
pub open spec fn can_belong(candidate: Candidate, pads: Seq<Vec<String>>) -> bool {
    candidate.fits && exists|i: int|
        0 <= i < pads.len() && !carries((#[trigger] pads[i])@, candidate.stream_id)
}

/// Whether a text is among some.
fn is_among(names: &Vec<String>, name: &str) -> (answer: bool)
    ensures
        answer == texts(names@).contains(name@),
{
    let mut at: usize = 0;
    while at < names.len()
        invariant
            at <= names@.len(),
            forall|i: int| 0 <= i < at ==> (#[trigger] names@[i])@ != name@,
        decreases names@.len() - at,
    {
        if same(names[at].as_str(), name) {
            assert(texts(names@)[at as int] == name@);
            return true;
        }
        at = at + 1;
    }
    proof {
        if texts(names@).contains(name@) {
            let i = texts(names@).index_of(name@);
            assert(names@[i]@ == name@);
        }
    }
    false
}

/// Whether some pad does not carry a stream.
fn is_free(stream_id: &Option<String>, pads: &Vec<Vec<String>>) -> (answer: bool)
    ensures
        answer == exists|i: int|
            0 <= i < pads@.len() && !carries((#[trigger] pads@[i])@, *stream_id),
{
    let mut at: usize = 0;
    while at < pads.len()
        invariant
            at <= pads@.len(),
            forall|i: int| 0 <= i < at ==> carries((#[trigger] pads@[i])@, *stream_id),
        decreases pads@.len() - at,
    {
        let used = match stream_id {
            None => false,
            Some(id) => is_among(&pads[at], id.as_str()),
        };
        if !used {
            assert(!carries(pads@[at as int]@, *stream_id));
            return true;
        }
        at = at + 1;
    }
    false
}

/// The first stream that a new pad can belong to. `pads` holds, for each pad of
/// the source, the identifiers of the streams that it carries.
pub fn find_stream(streams: &Vec<Candidate>, pads: &Vec<Vec<String>>) -> (place: Option<usize>)
    ensures
        match place {
            Some(at) => {
                &&& at < streams@.len()
                &&& can_belong(streams@[at as int], pads@)
                &&& forall|i: int| 0 <= i < at ==> !can_belong(#[trigger] streams@[i], pads@)
            },
            None => forall|i: int|
                0 <= i < streams@.len() ==> !can_belong(#[trigger] streams@[i], pads@),
        },
{
    let mut at: usize = 0;
    while at < streams.len()
        invariant
            at <= streams@.len(),
            forall|i: int| 0 <= i < at ==> !can_belong(#[trigger] streams@[i], pads@),
        decreases streams@.len() - at,
    {
        if streams[at].fits && is_free(&streams[at].stream_id, pads) {
            return Some(at);
        }
        at = at + 1;
    }
    None
}

/// How many streams carry video or audio.
pub open spec fn media_streams(streams: Seq<StreamType>) -> nat
    decreases streams.len(),
{
    if streams.len() == 0 {
        0
    } else {
        media_streams(streams.drop_last()) + (if streams.last() is Unknown {
            0nat
        } else {
            1nat
        })
    }
}

/// Whether the pad with a number is the last that the streams call for. Streams
/// are counted in 16 bits.
pub fn is_last_pad(pad_num: u16, streams: &Vec<StreamType>) -> (answer: bool)
    requires
        pad_num < u16::MAX,
    ensures
        answer == (pad_num + 1 == media_streams(streams@) % 0x1_0000),
{
    let mut count: usize = 0;
    let mut at: usize = 0;
    assert(streams@.take(0) =~= Seq::empty());
    while at < streams.len()
        invariant
            at <= streams@.len(),
            count == media_streams(streams@.take(at as int)),
            count <= at,
        decreases streams@.len() - at,
    {
        assert(streams@.take(at + 1).drop_last() =~= streams@.take(at as int));
        match streams[at] {
            StreamType::Unknown => {},
            _ => {
                count = count + 1;
            },
        }
        at = at + 1;
    }
    assert(streams@.take(at as int) =~= streams@);
    (pad_num + 1) as usize == count % 0x1_0000
}

/// The source.
#[derive(Debug)]
pub struct WebRTCSrc {
    pub stun_server: Option<String>,
    pub signaller: Signaller,
    /// The video codecs that can be used, the preferred first.
    pub video_codecs: Vec<String>,
    /// The audio codecs that can be used, the preferred first.
    pub audio_codecs: Vec<String>,
    /// How many pads there are.
    pub n_pads: u16,
    pub session_id: Option<String>,
    pub signaller_state: SignallerState,
    /// What the streams of the answer carry, once there is one.
    pub streams: Option<Vec<StreamType>>,
}

impl WebRTCSrc {
    /// A source with the usual settings.
    pub fn default() -> (source: WebRTCSrc)
        ensures
            maybe_text(source.stun_server) == Some(DEFAULT_STUN_SERVER@),
            source.signaller.address@ == ""@,
            source.signaller.cafile is None,
            !source.signaller.listener,
            !source.signaller.connected,
            texts(source.video_codecs@) == seq!["VP8"@, "H264"@, "VP9"@, "H265"@],
            texts(source.audio_codecs@) == seq!["OPUS"@],
            source.n_pads == 0,
            source.session_id is None,
            source.signaller_state is Stopped,
            source.streams is None,
    {
        let mut video_codecs: Vec<String> = Vec::new();
        video_codecs.push("VP8".to_owned());
        video_codecs.push("H264".to_owned());
        video_codecs.push("VP9".to_owned());
        video_codecs.push("H265".to_owned());
        let mut audio_codecs: Vec<String> = Vec::new();
        audio_codecs.push("OPUS".to_owned());
        assert(texts(video_codecs@) =~= seq!["VP8"@, "H264"@, "VP9"@, "H265"@]);
        assert(texts(audio_codecs@) =~= seq!["OPUS"@]);
        WebRTCSrc {
            stun_server: Some(DEFAULT_STUN_SERVER.to_owned()),
            signaller: Signaller::default(),
            video_codecs,
            audio_codecs,
            n_pads: 0,
            session_id: None,
            signaller_state: SignallerState::Stopped,
            streams: None,
        }
    }

    /// The protocols that the source handles.
    pub fn protocols() -> (protocols: Vec<&'static str>)
        ensures
            protocols@.len() == 2,
            protocols@[0]@ == "gstwebrtc"@,
            protocols@[1]@ == "gstwebrtcs"@,
    {
        let mut protocols: Vec<&'static str> = Vec::new();
        protocols.push("gstwebrtc");
        protocols.push("gstwebrtcs");
        protocols
    }

    /// The address of the server.
    pub fn uri(&self) -> (uri: Option<String>)
        ensures
            maybe_text(uri) == Some(self.signaller.address@),
    {
        Some(self.signaller.address.clone())
    }

    /// Sets the address of the server, given as a URI of one of the source's
    /// protocols.
    pub fn set_uri(&mut self, uri: &str) -> (result: Result<(), UriError>)
        ensures
            match result {
                Ok(_) => {
                    &&& is_url(uri@)
                    &&& socket_scheme(url_scheme(uri@)) is Some
                    &&& final(self).signaller.address@ == with_scheme(
                        url_parsed(uri@)->Ok_0,
                        url_scheme(uri@),
                        socket_scheme(url_scheme(uri@))->0,
                    )
                    &&& *final(self) == (WebRTCSrc {
                        signaller: Signaller {
                            address: final(self).signaller.address,
                            ..old(self).signaller
                        },
                        ..*old(self)
                    })
                },
                Err(UriError::Unreadable(reason)) => {
                    &&& url_parsed(uri@) == Err::<Seq<char>, _>(reason@)
                    &&& *final(self) == *old(self)
                },
                Err(UriError::InvalidProtocol(protocol)) => {
                    &&& is_url(uri@)
                    &&& socket_scheme(url_scheme(uri@)) is None
                    &&& protocol@ == url_scheme(uri@)
                    &&& *final(self) == *old(self)
                },
            },
    {
        match parse(uri) {
            Err(reason) => Err(UriError::Unreadable(reason)),
            Ok(url) => {
                let protocol = scheme(url.as_str());
                proof {
                    lemma_before_colon(url@);
                }
                match socket_address(url.as_str(), protocol.as_str()) {
                    Err(error) => Err(error),
                    Ok(address) => {
                        self.signaller.address = address;
                        Ok(())
                    },
                }
            },
        }
    }

    /// Whether a name is that of a child: the signaller is the only one.
    pub fn child_by_name(&self, name: &str) -> (signaller: Option<&Signaller>)
        ensures
            signaller == (if name@ == "signaller"@ {
                Some(&self.signaller)
            } else {
                None
            }),
    {
        if same(name, "signaller") {
            Some(&self.signaller)
        } else {
            None
        }
    }

    /// The codecs that can be used: those for video, then those for audio.
    pub fn codecs(&self) -> (codecs: Vec<String>)
        ensures
            texts(codecs@) == texts(self.video_codecs@) + texts(self.audio_codecs@),
    {
        let mut codecs: Vec<String> = Vec::new();
        let mut at: usize = 0;
        while at < self.video_codecs.len()
            invariant
                at <= self.video_codecs@.len(),
                texts(codecs@) == texts(self.video_codecs@).take(at as int),
            decreases self.video_codecs@.len() - at,
        {
            let ghost before = codecs@;
            codecs.push(self.video_codecs[at].clone());
            assert(texts(codecs@) =~= texts(before).push(self.video_codecs@[at as int]@));
            at = at + 1;
            assert(texts(codecs@) =~= texts(self.video_codecs@).take(at as int));
        }
        assert(texts(self.video_codecs@).take(at as int) =~= texts(self.video_codecs@));
        at = 0;
        while at < self.audio_codecs.len()
            invariant
                at <= self.audio_codecs@.len(),
                texts(codecs@) == texts(self.video_codecs@) + texts(self.audio_codecs@).take(
                    at as int,
                ),
            decreases self.audio_codecs@.len() - at,
        {
            let ghost before = codecs@;
            codecs.push(self.audio_codecs[at].clone());
            assert(texts(codecs@) =~= texts(before).push(self.audio_codecs@[at as int]@));
            at = at + 1;
            assert(texts(codecs@) =~= texts(self.video_codecs@) + texts(self.audio_codecs@).take(
                at as int,
            ));
        }
        assert(texts(self.audio_codecs@).take(at as int) =~= texts(self.audio_codecs@));
        codecs
    }

    /// The number and the name of a new pad.
    pub fn add_pad(&mut self) -> (pad: (u16, String))
        ensures
            pad.0 == old(self).n_pads,
            pad.1@ == "src_"@ + decimal(pad.0 as nat),
            *final(self) == (WebRTCSrc {
                n_pads: if old(self).n_pads == u16::MAX {
                    0
                } else {
                    (old(self).n_pads + 1) as u16
                },
                ..*old(self)
            }),
    {
        let pad_num = self.n_pads;
        self.n_pads = if pad_num == u16::MAX {
            0
        } else {
            pad_num + 1
        };
        (pad_num, "src_".to_owned().concat(to_decimal(pad_num as u64).as_str()))
    }

    /// A pad is gone.
    pub fn remove_pad(&mut self)
        ensures
            *final(self) == (WebRTCSrc {
                n_pads: if old(self).n_pads == 0 {
                    u16::MAX
                } else {
                    (old(self).n_pads - 1) as u16
                },
                ..*old(self)
            }),
    {
        self.n_pads = if self.n_pads == 0 {
            u16::MAX
        } else {
            self.n_pads - 1
        };
    }

    /// Whether no more pads follow the one with a number.
    pub fn no_more_pads(&self, pad_num: u16) -> (answer: bool)
        requires
            self.streams is Some ==> pad_num < u16::MAX,
        ensures
            answer == (self.streams matches Some(streams) && pad_num + 1 == media_streams(streams@)
                % 0x1_0000),
    {
        match &self.streams {
            None => false,
            Some(streams) => is_last_pad(pad_num, streams),
        }
    }

    /// Takes an ICE candidate of the peer, which needs the index of a line.
    pub fn handle_ice(&self, sdp_m_line_index: Option<u32>, candidate: String) -> (response:
        Response)
        ensures
            response == (match sdp_m_line_index {
                Some(index) => Response::AddIceCandidate { sdp_m_line_index: index, candidate },
                None => Response::Nothing,
            }),
    {
        match sdp_m_line_index {
            Some(index) => Response::AddIceCandidate { sdp_m_line_index: index, candidate },
            None => Response::Nothing,
        }
    }

    /// Follows a signal of the signaller.
    pub fn on_signal(&mut self, signal: Signal) -> (response: Response)
        ensures
            match signal {
                Signal::Error { error } => {
                    &&& response matches Response::Fail(message) && message@
                        == "Signalling error: "@ + error@
                    &&& *final(self) == *old(self)
                },
                Signal::SessionStarted { session_id, .. } => {
                    &&& response is Nothing
                    &&& *final(self) == (WebRTCSrc { session_id: Some(session_id), ..*old(self) })
                },
                Signal::SessionEnded { .. } => {
                    &&& response matches Response::Fail(message) && message@
                        == "Peer ended session"@
                    &&& *final(self) == (WebRTCSrc { session_id: None, ..*old(self) })
                },
                Signal::SdpOffer { sdp, .. } => {
                    &&& response == Response::Answer(sdp)
                    &&& *final(self) == *old(self)
                },
                Signal::HandleIce { sdp_m_line_index, candidate, .. } => {
                    &&& response == (match sdp_m_line_index {
                        Some(index) => Response::AddIceCandidate {
                            sdp_m_line_index: index,
                            candidate,
                        },
                        None => Response::Nothing,
                    })
                    &&& *final(self) == *old(self)
                },
            },
    {
        match signal {
            Signal::Error { error } => Response::Fail(
                "Signalling error: ".to_owned().concat(error.as_str()),
            ),
            Signal::SessionStarted { session_id, .. } => {
                self.session_id = Some(session_id);
                Response::Nothing
            },
            Signal::SessionEnded { .. } => {
                self.session_id = None;
                Response::Fail("Peer ended session".to_owned())
            },
            Signal::SdpOffer { sdp, .. } => Response::Answer(sdp),
            Signal::HandleIce { sdp_m_line_index, candidate, .. } => self.handle_ice(
                sdp_m_line_index,
                candidate,
            ),
        }
    }

    /// How to receive each medium of an offer, the preferred way first.
    pub fn handle_offer(&self, medias: &Vec<OfferedMedia>) -> (chosen: Vec<Vec<ChosenFormat>>)
        ensures
            chosen@.len() == medias@.len(),
            forall|i: int|
                0 <= i < chosen@.len() ==> chosen_view((#[trigger] chosen@[i])@)
                    == medias@[i].choice(texts(self.video_codecs@) + texts(self.audio_codecs@)),
    {
        let codecs = self.codecs();
        let mut chosen: Vec<Vec<ChosenFormat>> = Vec::new();
        while chosen.len() < medias.len()
            invariant
                chosen@.len() <= medias@.len(),
                texts(codecs@) == texts(self.video_codecs@) + texts(self.audio_codecs@),
                forall|i: int|
                    0 <= i < chosen@.len() ==> chosen_view((#[trigger] chosen@[i])@)
                        == medias@[i].choice(texts(codecs@)),
            decreases medias@.len() - chosen@.len(),
        {
            let formats = choose_formats(&medias[chosen.len()], &codecs);
            chosen.push(formats);
        }
        chosen
    }

    /// Notes what the streams of an answer carry. Tells the streams and in which
    /// session to send the answer, or why it cannot be sent.
    pub fn on_answer_created(&mut self, medias: &Vec<AnsweredMedia>) -> (answer: (
        Vec<AnsweredStream>,
        Result<String, &'static str>,
    ))
        ensures
            answer.0@.len() == medias@.len(),
            forall|i: int|
                0 <= i < medias@.len() ==> {
                    &&& (#[trigger] answer.0@[i]).kind == stream_type_of(
                        maybe_text(medias@[i].media),
                    )
                    &&& is_original_place(medias@[i].formats@, answer.0@[i].format)
                },
            final(self).streams matches Some(streams) && streams@ == answer.0@.map_values(
                |stream: AnsweredStream| stream.kind,
            ),
            *final(self) == (WebRTCSrc { streams: final(self).streams, ..*old(self) }),
            match answer.1 {
                Ok(id) => maybe_text(old(self).session_id) == Some(id@),
                Err(reason) => {
                    &&& old(self).session_id is None
                    &&& reason@
                        == "Signalling error, no session started while requesting to send an SDP offer"@
                },
            },
    {
        let streams = answered_streams(medias);
        let mut kinds: Vec<StreamType> = Vec::new();
        while kinds.len() < streams.len()
            invariant
                kinds@.len() <= streams@.len(),
                kinds@ == streams@.take(kinds@.len() as int).map_values(
                    |stream: AnsweredStream| stream.kind,
                ),
            decreases streams@.len() - kinds@.len(),
        {
            let at: usize = kinds.len();
            kinds.push(streams[at].kind);
            assert(kinds@ =~= streams@.take(at + 1).map_values(
                |stream: AnsweredStream| stream.kind,
            ));
        }
        assert(streams@.take(kinds@.len() as int) =~= streams@);
        self.streams = Some(kinds);
        let session: Result<String, &'static str> = match &self.session_id {
            Some(id) => Ok(id.clone()),
            None => Err(
                "Signalling error, no session started while requesting to send an SDP offer",
            ),
        };
        (streams, session)
    }

    /// In which session to propose an ICE candidate, or why it cannot be
    /// proposed.
    pub fn on_ice_candidate(&self) -> (session: Result<String, &'static str>)
        ensures
            match session {
                Ok(id) => maybe_text(self.session_id) == Some(id@),
                Err(reason) => {
                    &&& self.session_id is None
                    &&& reason@
                        == "Signalling error, no session started while requesting to propose ice candidates"@
                },
            },
    {
        match &self.session_id {
            Some(id) => Ok(id.clone()),
            None => Err(
                "Signalling error, no session started while requesting to propose ice candidates",
            ),
        }
    }

    /// Whether the signaller is to be started while the element is in a state.
    pub open spec fn starts(self, state: ElementState) -> bool {
        self.signaller_state is Stopped && (state is Paused || state is Playing)
    }

    /// The source once the signaller has been started, if it is to be.
    pub open spec fn started(self, state: ElementState) -> WebRTCSrc {
        if self.starts(state) {
            WebRTCSrc { signaller_state: SignallerState::Started, ..self }
        } else {
            self
        }
    }

    /// The source without its signaller and its session.
    pub open spec fn unprepared(self) -> WebRTCSrc {
        WebRTCSrc { signaller_state: SignallerState::Stopped, session_id: None, ..self }
    }

    /// Tells whether the signaller is to be started now, and notes it.
    pub fn maybe_start_signaller(&mut self, state: ElementState) -> (start: bool)
        ensures
            start == old(self).starts(state),
            *final(self) == old(self).started(state),
    {
        let running = match state {
            ElementState::Paused | ElementState::Playing => true,
            ElementState::Null | ElementState::Ready => false,
        };
        match self.signaller_state {
            SignallerState::Stopped => {
                if running {
                    self.signaller_state = SignallerState::Started;
                }
                running
            },
            SignallerState::Started => false,
        }
    }

    /// Tells whether the signaller is to be stopped now, and notes it.
    pub fn maybe_stop_signaller(&mut self) -> (stop: bool)
        ensures
            stop == (old(self).signaller_state is Started),
            *final(self) == (WebRTCSrc {
                signaller_state: SignallerState::Stopped,
                ..*old(self)
            }),
    {
        match self.signaller_state {
            SignallerState::Started => {
                self.signaller_state = SignallerState::Stopped;
                true
            },
            SignallerState::Stopped => false,
        }
    }

    /// Forgets the session. Tells whether the signaller is to be stopped.
    pub fn unprepare(&mut self) -> (stop: bool)
        ensures
            stop == (old(self).signaller_state is Started),
            *final(self) == old(self).unprepared(),
    {
        let stop = self.maybe_stop_signaller();
        self.session_id = None;
        stop
    }
}

/// Whether the source is set up before the bin makes a transition.
pub fn prepares(transition: Transition) -> (answer: bool)
    ensures
        answer == (transition is NullToReady),
{
    match transition {
        Transition::NullToReady => true,
        _ => false,
    }
}

/// What follows once the bin has made a transition.
pub fn after_change(transition: Transition) -> (next: AfterChange)
    ensures
        next == (match transition {
            Transition::PausedToReady => AfterChange::Unprepare,
            Transition::ReadyToPaused => AfterChange::NoPreroll,
            Transition::PausedToPlaying => AfterChange::StartSignaller,
            _ => AfterChange::Nothing,
        }),
{
    match transition {
        Transition::PausedToReady => AfterChange::Unprepare,
        Transition::ReadyToPaused => AfterChange::NoPreroll,
        Transition::PausedToPlaying => AfterChange::StartSignaller,
        _ => AfterChange::Nothing,
    }
}

/// What a failure to set up, or to take down, is reported as.
pub fn change_failure(prepare: bool, reason: &str) -> (message: String)
    ensures
        message@ == (if prepare {
            "Failed to prepare: "@
        } else {
            "Failed to unprepare: "@
        }) + reason@,
{
    let start = if prepare {
        "Failed to prepare: "
    } else {
        "Failed to unprepare: "
    };
    start.to_owned().concat(reason)
}

/// The signaller is started once, however often the element asks, until the
/// source is taken down; then it can be started again.
pub proof fn the_signaller_starts_once(
    source: WebRTCSrc,
    first: ElementState,
    second: ElementState,
)
    requires
        source.starts(first),
    ensures
        !source.started(first).starts(second),
        source.started(first).unprepared().starts(first),
{
}

/// Pads with different numbers have different names.
pub proof fn pad_names_differ(a: nat, b: nat)
    requires
        "src_"@ + decimal(a) == "src_"@ + decimal(b),
    ensures
        a == b,
{
    let whole = "src_"@ + decimal(a);
    assert(whole.skip("src_"@.len() as int) =~= decimal(a));
    assert(whole.skip("src_"@.len() as int) =~= decimal(b));
    crate::numbers::decimals_differ(a, b);
}

/// The source's protocols stand for connections in the clear and encrypted ones, and
/// there are no others.
pub proof fn protocols_stand_for_connections(protocol: Seq<char>)
    ensures
        protocol == "gstwebrtc"@ ==> socket_scheme(protocol) == Some("ws"@),
        protocol == "gstwebrtcs"@ && protocol != "gstwebrtc"@ ==> socket_scheme(protocol) == Some(
            "wss"@,
        ),
        protocol != "gstwebrtc"@ && protocol != "gstwebrtcs"@ ==> socket_scheme(protocol) is None,
{
}

/// A URL with another protocol differs in the protocol alone.
pub proof fn only_the_protocol_is_replaced(
    protocol: Seq<char>,
    rest: Seq<char>,
    other: Seq<char>,
)
    ensures
        with_scheme(protocol + rest, protocol, other) == other + rest,
{
    assert((protocol + rest).skip(protocol.len() as int) =~= rest);
}

/// Errors about URIs read as they are told.
pub proof fn uri_errors_are_worded(text: String)
    ensures
        UriError::Unreadable(text).text() == text@,
        UriError::InvalidProtocol(text).text() == "Invalid protocol: "@ + text@,
{
}

/// A pad can belong to a stream exactly where it fits and there is a pad that does not
/// carry the stream: every pad is free of a stream without an identifier, and of one
/// whose identifier is not among its own.
pub proof fn pads_belong_to_streams_that_are_free(
    candidate: Candidate,
    pads: Seq<Vec<String>>,
    at: int,
)
    ensures
        !candidate.fits ==> !can_belong(candidate, pads),
        pads.len() == 0 ==> !can_belong(candidate, pads),
        0 <= at < pads.len() ==> ({
            let free = match candidate.stream_id {
                None => true,
                Some(id) => !pads[at]@.map_values(|name: String| name@).contains(id@),
            };
            candidate.fits && free ==> can_belong(candidate, pads)
        }),
        (forall|i: int|
            0 <= i < pads.len() ==> (candidate.stream_id matches Some(id)
                && (#[trigger] pads[i])@.map_values(|name: String| name@).contains(id@))) ==> !can_belong(
            candidate,
            pads,
        ),
{
    if 0 <= at < pads.len() {
        assert(texts(pads[at]@) == pads[at]@.map_values(|name: String| name@));
        assert(carries(pads[at]@, candidate.stream_id) || !carries(
            pads[at]@,
            candidate.stream_id,
        ));
    }
    if can_belong(candidate, pads) {
        let i = choose|i: int|
            0 <= i < pads.len() && !carries((#[trigger] pads[i])@, candidate.stream_id);
        assert(texts(pads[i]@) == pads[i]@.map_values(|name: String| name@));
    }
}

/// Streams of media are all but those of unknown content.
pub proof fn media_streams_carry_video_or_audio(streams: Seq<StreamType>)
    ensures
        media_streams(streams) == streams.filter(
            |kind: StreamType| kind is Video || kind is Audio,
        ).len(),
    decreases streams.len(),
{
    reveal(Seq::filter);
    if streams.len() > 0 {
        media_streams_carry_video_or_audio(streams.drop_last());
    }
}

/// The signaller is started in the upper two states and not in the lower two, and only
/// where it does not run. Starting and taking down change what they say, and nothing
/// else.
pub proof fn the_signaller_runs_while_paused_or_playing(source: WebRTCSrc, state: ElementState)
    ensures
        source.signaller_state is Started ==> !source.starts(state),
        source.signaller_state is Stopped ==> (source.starts(state) <==> state is Paused
            || state is Playing),
        source.starts(state) ==> source.started(state) == (WebRTCSrc {
            signaller_state: SignallerState::Started,
            ..source
        }),
        !source.starts(state) ==> source.started(state) == source,
        source.unprepared() == (WebRTCSrc {
            signaller_state: SignallerState::Stopped,
            session_id: None,
            ..source
        }),
{
}

} // verus!
