//! The decisions of the ingestion receiver. The loop that owns the socket
//! and the store hands each outcome to `receiver_step` and performs the
//! action it returns. Every per-packet failure leaves the receiver
//! listening; only a transport failure stops it.
use vstd::prelude::*;
use crate::codec::{decode_datagram, decode_payload_spec, decode_text_spec, DecodeError};
use crate::MAX_DATAGRAM_LEN;
use vstd::utf8::{encode_utf8, encode_utf8_decode_utf8, encode_utf8_valid_utf8};
use crate::event::{Log, LogView};

verus! {

/// Where the receiver stands.
#[derive(Clone, Copy, Debug, PartialEq, Eq, Structural)]
pub enum ReceiverState {
    /// Waiting for the next datagram.
    Listening,
    /// The transport failed; nothing more is received.
    Stopped,
}

/// What the receive loop observed.
pub enum ReceiverEvent {
    /// One datagram's payload arrived.
    Datagram(Vec<u8>),
    /// The socket reported readable, but no datagram was there.
    NotReady,
    /// The last event handed to the store was written.
    Stored,
    /// The store failed to write the last event handed to it.
    StoreFailed,
    /// The socket failed.
    TransportFailed,
}

/// What the receive loop does next.
pub enum ReceiverAction {
    /// Wait for the next datagram.
    Receive,
    /// Write this event to the store, then report the outcome.
    Persist(Log),
    /// Drop the datagram for this reason and wait for the next one.
    Reject(DecodeError),
    /// Report that a write failed and wait for the next datagram.
    ReportStoreFailure,
    /// Leave the loop.
    Stop,
}

/// The mathematical value of a `ReceiverEvent`.
pub enum EventView {
    Datagram(Seq<u8>),
    NotReady,
    Stored,
    StoreFailed,
    TransportFailed,
}

/// The mathematical value of a `ReceiverAction`.
pub enum ActionView {
    Receive,
    Persist(LogView),
    Reject(DecodeError),
    ReportStoreFailure,
    Stop,
}

impl View for ReceiverEvent {
    type V = EventView;

    open spec fn view(&self) -> EventView {
        match self {
            ReceiverEvent::Datagram(b) => EventView::Datagram(b@),
            ReceiverEvent::NotReady => EventView::NotReady,
            ReceiverEvent::Stored => EventView::Stored,
            ReceiverEvent::StoreFailed => EventView::StoreFailed,
            ReceiverEvent::TransportFailed => EventView::TransportFailed,
        }
    }
}

impl View for ReceiverAction {
    type V = ActionView;

    open spec fn view(&self) -> ActionView {
        match self {
            ReceiverAction::Receive => ActionView::Receive,
            ReceiverAction::Persist(e) => ActionView::Persist(e@),
            ReceiverAction::Reject(d) => ActionView::Reject(*d),
            ReceiverAction::ReportStoreFailure => ActionView::ReportStoreFailure,
            ReceiverAction::Stop => ActionView::Stop,
        }
    }
}

/// The state after `event` in state `s`.
pub open spec fn next_state(s: ReceiverState, event: EventView) -> ReceiverState {
    match (s, event) {
        (ReceiverState::Stopped, _) => ReceiverState::Stopped,
        (_, EventView::TransportFailed) => ReceiverState::Stopped,
        _ => ReceiverState::Listening,
    }
}

/// The action after `event` in state `s`.
pub open spec fn next_action(s: ReceiverState, event: EventView) -> ActionView {
    match (s, event) {
        (ReceiverState::Stopped, _) => ActionView::Stop,
        (_, EventView::TransportFailed) => ActionView::Stop,
        (_, EventView::Datagram(b)) => match decode_payload_spec(b) {
            Ok(e) => ActionView::Persist(e),
            Err(d) => ActionView::Reject(d),
        },
        (_, EventView::StoreFailed) => ActionView::ReportStoreFailure,
        _ => ActionView::Receive,
    }
}

/// One step of the receiver: the state it moves to and what the loop does.
pub fn receiver_step(state: ReceiverState, event: &ReceiverEvent) -> (r: (ReceiverState, ReceiverAction))
    ensures
        r.0 == next_state(state, event@),
        r.1@ == next_action(state, event@),
{
    if state == ReceiverState::Stopped {
        return (ReceiverState::Stopped, ReceiverAction::Stop);
    }
    match event {
        ReceiverEvent::Datagram(bytes) => match decode_datagram(bytes.as_slice()) {
            Ok(e) => (ReceiverState::Listening, ReceiverAction::Persist(e)),
            Err(d) => (ReceiverState::Listening, ReceiverAction::Reject(d)),
        },
        ReceiverEvent::NotReady => (ReceiverState::Listening, ReceiverAction::Receive),
        ReceiverEvent::Stored => (ReceiverState::Listening, ReceiverAction::Receive),
        ReceiverEvent::StoreFailed => (ReceiverState::Listening, ReceiverAction::ReportStoreFailure),
        ReceiverEvent::TransportFailed => (ReceiverState::Stopped, ReceiverAction::Stop),
    }
}

/// The events that a listening receiver hands to the store when the
/// datagrams `ds` arrive in this order.
pub open spec fn persisted(ds: Seq<Seq<u8>>) -> Seq<LogView>
    decreases ds.len(),
{
    if ds.len() == 0 {
        Seq::empty()
    } else {
        match next_action(ReceiverState::Listening, EventView::Datagram(ds.last())) {
            ActionView::Persist(e) => persisted(ds.drop_last()).push(e),
            _ => persisted(ds.drop_last()),
        }
    }
}

/// A text that decodes to an event, sent as one datagram of at most
/// `MAX_DATAGRAM_LEN` bytes, is handed to the store as that very event, and
/// the receiver keeps listening.
pub proof fn lemma_valid_payload_persisted(ds: Seq<Seq<u8>>, text: Seq<char>, e: LogView)
    requires
        decode_text_spec(text) == Ok::<LogView, DecodeError>(e),
        encode_utf8(text).len() <= MAX_DATAGRAM_LEN,
    ensures
        next_state(ReceiverState::Listening, EventView::Datagram(encode_utf8(text)))
            == ReceiverState::Listening,
        next_action(ReceiverState::Listening, EventView::Datagram(encode_utf8(text)))
            == ActionView::Persist(e),
        persisted(ds.push(encode_utf8(text))) == persisted(ds).push(e),
{
    encode_utf8_valid_utf8(text);
    encode_utf8_decode_utf8(text);
    assert(ds.push(encode_utf8(text)).drop_last() == ds);
}

/// A malformed datagram is dropped: nothing reaches the store, and the
/// receiver keeps listening for the next datagram.
pub proof fn lemma_malformed_dropped(ds: Seq<Seq<u8>>, b: Seq<u8>)
    requires
        decode_payload_spec(b) is Err,
    ensures
        next_state(ReceiverState::Listening, EventView::Datagram(b)) == ReceiverState::Listening,
        next_action(ReceiverState::Listening, EventView::Datagram(b))
            == ActionView::Reject(decode_payload_spec(b)->Err_0),
        persisted(ds.push(b)) == persisted(ds),
{
    assert(ds.push(b).drop_last() == ds);
}

/// Whatever order `n` well-formed datagrams arrive in, all `n` of their
/// events reach the store, each in the place of its datagram.
pub proof fn lemma_all_valid_persisted(ds: Seq<Seq<u8>>)
    requires
        forall|i: int| 0 <= i < ds.len() ==> decode_payload_spec(#[trigger] ds[i]) is Ok,
    ensures
        persisted(ds).len() == ds.len(),
        forall|i: int|
            0 <= i < ds.len() ==> Ok::<LogView, DecodeError>(#[trigger] persisted(ds)[i])
                == decode_payload_spec(ds[i]),
    decreases ds.len(),
{
    if ds.len() > 0 {
        let t = ds.drop_last();
        assert forall|i: int| 0 <= i < t.len() implies decode_payload_spec(#[trigger] t[i]) is Ok by {
            assert(t[i] == ds[i]);
        }
        lemma_all_valid_persisted(t);
        assert(decode_payload_spec(ds[ds.len() - 1]) is Ok);
        assert forall|i: int| 0 <= i < ds.len() implies Ok::<LogView, DecodeError>(
            #[trigger] persisted(ds)[i],
        ) == decode_payload_spec(ds[i]) by {
            if i < ds.len() - 1 {
                assert(t[i] == ds[i]);
            }
        }
    }
}

} // verus!
