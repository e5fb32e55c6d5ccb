//! The sending side: what can go wrong, and how the rate is controlled.
pub mod gcc;

use vstd::prelude::*;

verus! {

/// What can go wrong in the sink.
#[derive(Debug)]
pub enum WebRTCSinkError {
    NoConsumerWithId(String),
    ConsumerRefusedMedia { peer_id: String, media_idx: u32 },
    ConsumerNoValidPayload { peer_id: String, media_idx: u32 },
    MandatorySdpMlineIndex,
    DuplicateConsumerId(String),
    ConsumerPipelineError { peer_id: String, details: String },
}

impl WebRTCSinkError {
    /// The text that stands for the error.
    pub open spec fn text(self) -> Seq<char> {
        match self {
            WebRTCSinkError::NoConsumerWithId(_) => "no consumer with id"@,
            WebRTCSinkError::ConsumerRefusedMedia { .. } => "consumer refused media"@,
            WebRTCSinkError::ConsumerNoValidPayload { .. } => {
                "consumer did not provide valid payload for media"@
            },
            WebRTCSinkError::MandatorySdpMlineIndex => "SDP mline index is currently mandatory"@,
            WebRTCSinkError::DuplicateConsumerId(_) => "duplicate consumer id"@,
            WebRTCSinkError::ConsumerPipelineError { .. } => {
                "error setting up consumer pipeline"@
            },
        }
    }

    /// The text that stands for the error, whoever it is about.
    pub fn message(&self) -> (message: String)
        ensures
            message@ == self.text(),
    {
        let text = match self {
            WebRTCSinkError::NoConsumerWithId(_) => "no consumer with id",
            WebRTCSinkError::ConsumerRefusedMedia { .. } => "consumer refused media",
            WebRTCSinkError::ConsumerNoValidPayload { .. } => {
                "consumer did not provide valid payload for media"
            },
            WebRTCSinkError::MandatorySdpMlineIndex => "SDP mline index is currently mandatory",
            WebRTCSinkError::DuplicateConsumerId(_) => "duplicate consumer id",
            WebRTCSinkError::ConsumerPipelineError { .. } => "error setting up consumer pipeline",
        };
        text.to_owned()
    }
}

/// How the sink reacts to congestion.
#[derive(Debug, Eq, PartialEq, Ord, PartialOrd, Hash, Clone, Copy, Structural)]
pub enum WebRTCSinkCongestionControl {
    Disabled,
    Homegrown,
    GoogleCongestionControl,
}

impl WebRTCSinkCongestionControl {
    /// The short name by which users select the control.
    pub fn nick(self) -> (nick: &'static str)
        ensures
            nick@ == (match self {
                WebRTCSinkCongestionControl::Disabled => "disabled"@,
                WebRTCSinkCongestionControl::Homegrown => "homegrown"@,
                WebRTCSinkCongestionControl::GoogleCongestionControl => "gcc"@,
            }),
    {
        match self {
            WebRTCSinkCongestionControl::Disabled => "disabled",
            WebRTCSinkCongestionControl::Homegrown => "homegrown",
            WebRTCSinkCongestionControl::GoogleCongestionControl => "gcc",
        }
    }
}

/// Errors of the sink read as what went wrong, whoever it is about.
pub proof fn sink_errors_are_worded(error: WebRTCSinkError)
    ensures
        match error {
            WebRTCSinkError::NoConsumerWithId(_) => error.text() == "no consumer with id"@,
            WebRTCSinkError::ConsumerRefusedMedia { .. } => error.text()
                == "consumer refused media"@,
            WebRTCSinkError::ConsumerNoValidPayload { .. } => error.text()
                == "consumer did not provide valid payload for media"@,
            WebRTCSinkError::MandatorySdpMlineIndex => error.text()
                == "SDP mline index is currently mandatory"@,
            WebRTCSinkError::DuplicateConsumerId(_) => error.text() == "duplicate consumer id"@,
            WebRTCSinkError::ConsumerPipelineError { .. } => error.text()
                == "error setting up consumer pipeline"@,
        },
{
}

} // verus!
