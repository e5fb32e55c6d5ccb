//! What a client and the signalling server make of each other's messages.
use super::signaller::{peer_id_in, to_producer, ActionView, Signaller};
use crate::handlers::model::HandlerView;
use crate::peers::Id;
use crate::protocol::{
    IncomingMessageView, OutgoingMessageView, PeerMessageInfoView, PeerMessageInnerView,
    PeerMessageView, RegisterMessage, RegisteredMessageView, SdpMessageView,
};
use serde_json::Value;
use vstd::prelude::*;

verus! {

/// A client that registers gets into a session with the producer that its address
/// names: the server confirms the registration, the client asks for the session,
/// the session starts, and the producer is told to make an offer. The client then
/// registers as a listener too.
pub proof fn a_client_gets_its_session(
    state: HandlerView,
    client: Signaller,
    id: Id,
    meta: Option<Value>,
)
    requires
        state.wf(),
        client.connected,
        !client.listener,
        peer_id_in(client.address@) is Some,
        state.producers.contains_key(peer_id_in(client.address@)->0),
        !state.consumers.contains_key(id),
    ensures
        ({
            let producer = peer_id_in(client.address@)->0;
            let confirmation = OutgoingMessageView::Registered(
                RegisteredMessageView::Consumer { peer_id: id, meta },
            );
            let request = IncomingMessageView::StartSession { peer_id: producer };
            let listen = IncomingMessageView::Register(RegisterMessage::Listener { meta });
            let joined = state.receive(
                id,
                Some(IncomingMessageView::Register(RegisterMessage::Consumer { meta })),
            );
            let started = joined.receive(id, Some(request));
            &&& joined.items == state.items.push((id, confirmation))
            &&& client.reaction(confirmation, meta) == seq![
                ActionView::Send(request),
                ActionView::Send(listen),
            ]
            &&& started.items == joined.items.push(
                (producer, OutgoingMessageView::StartSession { peer_id: id }),
            )
            &&& started.producer_has(producer, id)
            &&& started.consumer_has(id, producer)
        }),
{
    let producer = peer_id_in(client.address@)->0;
    let joined = state.receive(
        id,
        Some(IncomingMessageView::Register(RegisterMessage::Consumer { meta })),
    );
    let started = joined.receive(
        id,
        Some(IncomingMessageView::StartSession { peer_id: producer }),
    );
    assert(joined.consumers[id].len() == 0);
    assert(started.producers[producer].last() == id);
    assert(started.consumers[id].last() == producer);
}

/// What a client sends to the producer of its session reaches the producer: its
/// answer and its ICE candidates, with the client's identifier.
pub proof fn a_client_reaches_its_producer(
    state: HandlerView,
    id: Id,
    producer: Id,
    text: Seq<char>,
    line: u32,
)
    requires
        state.wf(),
        state.consumer_has(id, producer),
    ensures
        ({
            let answer = PeerMessageInnerView::Sdp(SdpMessageView::Answer { sdp: text });
            let ice = PeerMessageInnerView::Ice { candidate: text, sdp_m_line_index: line };
            let arrives = |peer_message: PeerMessageInnerView|
                OutgoingMessageView::Peer(
                    PeerMessageView::Consumer(PeerMessageInfoView { peer_id: id, peer_message }),
                );
            &&& state.receive(id, Some(to_producer(producer, answer))) == state.send(
                producer,
                arrives(answer),
            )
            &&& state.receive(id, Some(to_producer(producer, ice))) == state.send(
                producer,
                arrives(ice),
            )
        }),
{
}

/// What the producer of a session sends reaches the client, which tells of it: an
/// offer as an offer, an ICE candidate as an ICE candidate.
pub proof fn a_producer_reaches_its_client(
    state: HandlerView,
    client: Signaller,
    id: Id,
    producer: Id,
    text: Seq<char>,
    line: u32,
    meta: Option<Value>,
)
    requires
        state.wf(),
        state.producer_has(producer, id),
    ensures
        ({
            let offer = PeerMessageInnerView::Sdp(SdpMessageView::Offer { sdp: text });
            let ice = PeerMessageInnerView::Ice { candidate: text, sdp_m_line_index: line };
            let sent = |peer_message: PeerMessageInnerView|
                IncomingMessageView::Peer(
                    PeerMessageView::Producer(PeerMessageInfoView { peer_id: id, peer_message }),
                );
            let arrives = |peer_message: PeerMessageInnerView|
                OutgoingMessageView::Peer(
                    PeerMessageView::Producer(
                        PeerMessageInfoView { peer_id: producer, peer_message },
                    ),
                );
            &&& state.receive(producer, Some(sent(offer))) == state.send(id, arrives(offer))
            &&& client.reaction(arrives(offer), meta) == seq![
                ActionView::SdpOffer { peer_id: producer, sdp: text },
            ]
            &&& state.receive(producer, Some(sent(ice))) == state.send(id, arrives(ice))
            &&& client.reaction(arrives(ice), meta) == seq![
                ActionView::HandleIce {
                    peer_id: producer,
                    sdp_m_line_index: line,
                    candidate: text,
                },
            ]
        }),
{
}

} // verus!
