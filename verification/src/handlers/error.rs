//! Why a request is refused.
use crate::peers::Id;
use vstd::prelude::*;

verus! {

/// What a peer can register as.
#[derive(Debug, Clone, Copy, PartialEq, Eq)]
pub enum Role {
    Producer,
    Consumer,
    Listener,
}

impl Role {
    /// The name of the role, as messages spell it.
    pub open spec fn text(self) -> Seq<char> {
        match self {
            Role::Producer => "producer"@,
            Role::Consumer => "consumer"@,
            Role::Listener => "listener"@,
        }
    }

    /// The name of the role, as messages spell it.
    pub fn name(self) -> (name: &'static str)
        ensures
            name@ == self.text(),
    {
        match self {
            Role::Producer => "producer",
            Role::Consumer => "consumer",
            Role::Listener => "listener",
        }
    }
}

/// A refused request.
#[derive(Debug, PartialEq, Eq)]
pub enum HandlerError {
    /// The peer has the role it asks for
    AlreadyRegistered { peer_id: String, role: Role },
    /// A session needs a peer with a role that it does not have
    NotRegistered { peer_id: String, role: Role },
    /// The session asked for exists
    AlreadyInSession { consumer_id: String, producer_id: String },
    /// The session to be ended does not exist
    NotInSession { from_consumer: bool, peer_id: String, other_peer_id: String },
    /// An ICE candidate between peers that are not in a session
    IceOutsideSession { from_consumer: bool, peer_id: String, other_peer_id: String },
    /// An offer between peers that are not in a session
    OfferOutsideSession { producer_id: String, consumer_id: String },
    /// An offer from a peer that is not a producer
    OfferNotFromProducer { producer_id: String, consumer_id: String },
    /// An answer between peers that are not in a session
    AnswerOutsideSession { consumer_id: String, producer_id: String },
}

/// The view of `HandlerError`.
pub enum HandlerErrorView {
    AlreadyRegistered { peer_id: Id, role: Role },
    NotRegistered { peer_id: Id, role: Role },
    AlreadyInSession { consumer_id: Id, producer_id: Id },
    NotInSession { from_consumer: bool, peer_id: Id, other_peer_id: Id },
    IceOutsideSession { from_consumer: bool, peer_id: Id, other_peer_id: Id },
    OfferOutsideSession { producer_id: Id, consumer_id: Id },
    OfferNotFromProducer { producer_id: Id, consumer_id: Id },
    AnswerOutsideSession { consumer_id: Id, producer_id: Id },
}

impl View for HandlerError {
    type V = HandlerErrorView;

    open spec fn view(&self) -> HandlerErrorView {
        match self {
            HandlerError::AlreadyRegistered { peer_id, role } => HandlerErrorView::AlreadyRegistered {
                peer_id: peer_id@,
                role: *role,
            },
            HandlerError::NotRegistered { peer_id, role } => HandlerErrorView::NotRegistered {
                peer_id: peer_id@,
                role: *role,
            },
            HandlerError::AlreadyInSession { consumer_id, producer_id } => {
                HandlerErrorView::AlreadyInSession {
                    consumer_id: consumer_id@,
                    producer_id: producer_id@,
                }
            },
            HandlerError::NotInSession { from_consumer, peer_id, other_peer_id } => {
                HandlerErrorView::NotInSession {
                    from_consumer: *from_consumer,
                    peer_id: peer_id@,
                    other_peer_id: other_peer_id@,
                }
            },
            HandlerError::IceOutsideSession { from_consumer, peer_id, other_peer_id } => {
                HandlerErrorView::IceOutsideSession {
                    from_consumer: *from_consumer,
                    peer_id: peer_id@,
                    other_peer_id: other_peer_id@,
                }
            },
            HandlerError::OfferOutsideSession { producer_id, consumer_id } => {
                HandlerErrorView::OfferOutsideSession {
                    producer_id: producer_id@,
                    consumer_id: consumer_id@,
                }
            },
            HandlerError::OfferNotFromProducer { producer_id, consumer_id } => {
                HandlerErrorView::OfferNotFromProducer {
                    producer_id: producer_id@,
                    consumer_id: consumer_id@,
                }
            },
            HandlerError::AnswerOutsideSession { consumer_id, producer_id } => {
                HandlerErrorView::AnswerOutsideSession {
                    consumer_id: consumer_id@,
                    producer_id: producer_id@,
                }
            },
        }
    }
}

impl HandlerErrorView {
    /// The text that the peer whose request was refused gets to read.
    pub open spec fn details(self) -> Seq<char> {
        match self {
            HandlerErrorView::AlreadyRegistered { peer_id, role } => {
                peer_id + " is already registered as a "@ + role.text()
            },
            HandlerErrorView::NotRegistered { peer_id, role } => {
                "Peer with id "@ + peer_id + " is not registered as a "@ + role.text()
            },
            HandlerErrorView::AlreadyInSession { consumer_id, producer_id } => {
                "Consumer with id "@ + consumer_id + " is already in a session with producer "@
                    + producer_id
            },
            HandlerErrorView::NotInSession { from_consumer, peer_id, other_peer_id } => {
                (if from_consumer {
                    "Consumer"@
                } else {
                    "Producer"@
                }) + " '"@ + peer_id + "' is not in a session with '"@ + other_peer_id + "'"@
            },
            HandlerErrorView::IceOutsideSession { from_consumer, peer_id, other_peer_id } => {
                (if from_consumer {
                    "cannot forward ICE from consumer="@ + peer_id + " to producer="@
                } else {
                    "cannot forward ICE from producer="@ + peer_id + " to consumer="@
                }) + other_peer_id + " as they are not in a session"@
            },
            HandlerErrorView::OfferOutsideSession { producer_id, consumer_id } => {
                "cannot forward offer from "@ + producer_id + " to "@ + consumer_id
                    + " as they are not in a session"@
            },
            HandlerErrorView::OfferNotFromProducer { producer_id, consumer_id } => {
                "cannot forward offer from "@ + producer_id + " to "@ + consumer_id
                    + " as they are not in a session or "@ + producer_id + " is not the producer"@
            },
            HandlerErrorView::AnswerOutsideSession { consumer_id, producer_id } => {
                "cannot forward answer from "@ + consumer_id + " to "@ + producer_id
                    + " as they are not in a session"@
            },
        }
    }
}

impl HandlerError {
    /// The text that the peer whose request was refused gets to read.
    pub fn details(&self) -> (text: String)
        ensures
            text@ == self@.details(),
    {
        match self {
            HandlerError::AlreadyRegistered { peer_id, role } => {
                peer_id.clone().concat(" is already registered as a ").concat(role.name())
            },
            HandlerError::NotRegistered { peer_id, role } => {
                "Peer with id ".to_owned().concat(peer_id.as_str()).concat(
                    " is not registered as a ",
                ).concat(role.name())
            },
            HandlerError::AlreadyInSession { consumer_id, producer_id } => {
                "Consumer with id ".to_owned().concat(consumer_id.as_str()).concat(
                    " is already in a session with producer ",
                ).concat(producer_id.as_str())
            },
            HandlerError::NotInSession { from_consumer, peer_id, other_peer_id } => {
                let role = if *from_consumer {
                    "Consumer"
                } else {
                    "Producer"
                };
                role.to_owned().concat(" '").concat(peer_id.as_str()).concat(
                    "' is not in a session with '",
                ).concat(other_peer_id.as_str()).concat("'")
            },
            HandlerError::IceOutsideSession { from_consumer, peer_id, other_peer_id } => {
                let route = if *from_consumer {
                    "cannot forward ICE from consumer=".to_owned().concat(peer_id.as_str()).concat(
                        " to producer=",
                    )
                } else {
                    "cannot forward ICE from producer=".to_owned().concat(peer_id.as_str()).concat(
                        " to consumer=",
                    )
                };
                route.concat(other_peer_id.as_str()).concat(" as they are not in a session")
            },
            HandlerError::OfferOutsideSession { producer_id, consumer_id } => {
                "cannot forward offer from ".to_owned().concat(producer_id.as_str()).concat(
                    " to ",
                ).concat(consumer_id.as_str()).concat(" as they are not in a session")
            },
            HandlerError::OfferNotFromProducer { producer_id, consumer_id } => {
                "cannot forward offer from ".to_owned().concat(producer_id.as_str()).concat(
                    " to ",
                ).concat(consumer_id.as_str()).concat(" as they are not in a session or ").concat(
                    producer_id.as_str(),
                ).concat(" is not the producer")
            },
            HandlerError::AnswerOutsideSession { consumer_id, producer_id } => {
                "cannot forward answer from ".to_owned().concat(consumer_id.as_str()).concat(
                    " to ",
                ).concat(producer_id.as_str()).concat(" as they are not in a session")
            },
        }
    }
}

/// Refusals are looked at as they are: for the same reason, about the same peers.
pub proof fn refusals_are_kept(refusal: HandlerError)
    ensures
        match refusal {
            HandlerError::AlreadyRegistered { peer_id, role } => refusal@
                == (HandlerErrorView::AlreadyRegistered { peer_id: peer_id@, role }),
            HandlerError::NotRegistered { peer_id, role } => refusal@
                == (HandlerErrorView::NotRegistered { peer_id: peer_id@, role }),
            HandlerError::AlreadyInSession { consumer_id, producer_id } => refusal@
                == (HandlerErrorView::AlreadyInSession {
                consumer_id: consumer_id@,
                producer_id: producer_id@,
            }),
            HandlerError::NotInSession { from_consumer, peer_id, other_peer_id } => refusal@
                == (HandlerErrorView::NotInSession {
                from_consumer,
                peer_id: peer_id@,
                other_peer_id: other_peer_id@,
            }),
            HandlerError::IceOutsideSession { from_consumer, peer_id, other_peer_id } => refusal@
                == (HandlerErrorView::IceOutsideSession {
                from_consumer,
                peer_id: peer_id@,
                other_peer_id: other_peer_id@,
            }),
            HandlerError::OfferOutsideSession { producer_id, consumer_id } => refusal@
                == (HandlerErrorView::OfferOutsideSession {
                producer_id: producer_id@,
                consumer_id: consumer_id@,
            }),
            HandlerError::OfferNotFromProducer { producer_id, consumer_id } => refusal@
                == (HandlerErrorView::OfferNotFromProducer {
                producer_id: producer_id@,
                consumer_id: consumer_id@,
            }),
            HandlerError::AnswerOutsideSession { consumer_id, producer_id } => refusal@
                == (HandlerErrorView::AnswerOutsideSession {
                consumer_id: consumer_id@,
                producer_id: producer_id@,
            }),
        },
{
}

} // verus!
