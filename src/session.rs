use vstd::prelude::*;

use crate::error_util::{handle_io_error, io_kind_of, is_fatal_kind, ErrorAction};

verus! {

/// An IP address as plain numbers: the four octets of an IPv4 address, or the
/// sixteen of an IPv6 address, read big-endian.
#[derive(Clone, Copy, Debug, Hash, PartialEq, Eq, Structural)]
pub enum IpAddress {
    V4(u32),
    V6(u128),
}

/// The endpoint (address and port) that a datagram came from. It keys the
/// session cache and addresses the replies.
#[derive(Clone, Copy, Debug, Hash, PartialEq, Eq, Structural)]
pub struct SessionSource {
    pub address: IpAddress,
    pub port: u16,
}

impl SessionSource {
    pub fn new(address: IpAddress, port: u16) -> (r: SessionSource)
        ensures
            r.address == address,
            r.port == port,
    {
        SessionSource { address, port }
    }
}

/// A datagram from the backend, to be written back to the source whose
/// session received it.
#[derive(Debug)]
pub struct SessionReply {
    pub source: SessionSource,
    pub data: Vec<u8>,
}

impl SessionReply {
    pub fn new(source: SessionSource, data: Vec<u8>) -> (r: SessionReply)
        ensures
            r.source == source,
            r.data@ == data@,
    {
        SessionReply { source, data }
    }
}

/// What waiting on a session queue, with the idle deadline, produced.
pub enum QueueEvent {
    /// The next datagram from the source.
    Datagram(Vec<u8>),
    /// The deadline passed with nothing queued.
    Idle,
    /// The producer is gone: the session has left the cache.
    Closed,
}

/// What the tx loop of a session does next.
pub enum TxAction {
    /// Send these bytes to the backend on the egress socket.
    Send(Vec<u8>),
    /// End the loop cleanly.
    Exit,
}

/// The payload that an event hands the tx loop to send, if any.
pub open spec fn queued_payload(ev: QueueEvent) -> Option<Seq<u8>> {
    match ev {
        QueueEvent::Datagram(d) => Some(d@),
        _ => None,
    }
}

/// The tx loop's step: a queued datagram is sent as it is, once; an idle
/// deadline or a closed queue ends the loop.
pub fn tx_next(ev: QueueEvent) -> (r: TxAction)
    ensures
        match r {
            TxAction::Send(d) => queued_payload(ev) == Some(d@),
            TxAction::Exit => queued_payload(ev) is None,
        },
{
    match ev {
        QueueEvent::Datagram(d) => TxAction::Send(d),
        QueueEvent::Idle => TxAction::Exit,
        QueueEvent::Closed => TxAction::Exit,
    }
}

/// The datagrams that the tx loop sends when waiting on its queue gives
/// `events` in turn: one send for each queued datagram, up to the first event
/// that ends the loop.
pub open spec fn tx_sends(events: Seq<QueueEvent>) -> Seq<Seq<u8>>
    decreases events.len(),
{
    if events.len() == 0 {
        Seq::empty()
    } else {
        match queued_payload(events[0]) {
            Some(d) => seq![d] + tx_sends(events.skip(1)),
            None => Seq::empty(),
        }
    }
}

/// The tx loop sends each datagram of its queue once and in the order queued:
/// its k-th send is the k-th datagram, and while the queue only yields
/// datagrams every one of them is sent.
pub proof fn lemma_tx_sends_in_order(events: Seq<QueueEvent>)
    ensures
        tx_sends(events).len() <= events.len(),
        forall|k: int|
            0 <= k < tx_sends(events).len() ==> queued_payload(#[trigger] events[k]) == Some(
                tx_sends(events)[k],
            ),
        (forall|k: int| 0 <= k < events.len() ==> (#[trigger] events[k]) is Datagram)
            ==> tx_sends(events).len() == events.len(),
    decreases events.len(),
{
    if events.len() > 0 {
        let rest = events.skip(1);
        lemma_tx_sends_in_order(rest);
        if queued_payload(events[0]) is Some {
            assert forall|k: int| 0 <= k < tx_sends(events).len() implies queued_payload(
                #[trigger] events[k],
            ) == Some(tx_sends(events)[k]) by {
                if k > 0 {
                    assert(events[k] == rest[k - 1]);
                }
            }
            if forall|k: int| 0 <= k < events.len() ==> (#[trigger] events[k]) is Datagram {
                assert forall|k: int| 0 <= k < rest.len() implies (#[trigger] rest[k]) is Datagram by {
                    assert(rest[k] == events[k + 1]);
                }
            }
        } else {
            assert(!(events[0] is Datagram));
        }
    }
}

/// What the tx loop does after a send to the backend failed. A refused
/// connection means the backend is not up yet and is passed over in silence;
/// any other error goes through the classifier. Either way the datagram is
/// not sent again.
pub fn tx_send_failed(err: std::io::Error) -> (r: ErrorAction)
    ensures
        io_kind_of(err) == std::io::ErrorKind::ConnectionRefused ==> r is Continue,
        io_kind_of(err) != std::io::ErrorKind::ConnectionRefused ==> match r {
            ErrorAction::Terminate(e) => e == err && is_fatal_kind(io_kind_of(err)),
            ErrorAction::Continue => !is_fatal_kind(io_kind_of(err)),
        },
{
    match err.kind() {
        std::io::ErrorKind::ConnectionRefused => ErrorAction::Continue,
        _ => handle_io_error(err),
    }
}

/// What waiting on the egress socket, with the idle deadline, produced.
pub enum SocketEvent {
    /// A datagram from the backend.
    Received(Vec<u8>),
    /// The receive failed.
    Failed(std::io::Error),
    /// The deadline passed with nothing received.
    Idle,
}

/// What the rx loop of a session does next.
pub enum RxAction {
    /// Hand this reply to the aggregator.
    Forward(SessionReply),
    /// Drop the attempt and wait again.
    Retry,
    /// End the loop cleanly.
    Exit,
    /// End the loop with this error.
    Fail(std::io::Error),
}

/// The rx loop's step for the session of `source`: a datagram from the
/// backend becomes a reply addressed to `source`; an idle deadline ends the
/// loop; a failed receive goes through the classifier.
pub fn rx_next(source: SessionSource, ev: SocketEvent) -> (r: RxAction)
    ensures
        match ev {
            SocketEvent::Received(d) => r matches RxAction::Forward(rep) && rep.source == source
                && rep.data@ == d@,
            SocketEvent::Idle => r is Exit,
            SocketEvent::Failed(e) => if is_fatal_kind(io_kind_of(e)) {
                r matches RxAction::Fail(x) && x == e
            } else {
                r is Retry
            },
        },
{
    match ev {
        SocketEvent::Received(d) => RxAction::Forward(SessionReply::new(source, d)),
        SocketEvent::Idle => RxAction::Exit,
        SocketEvent::Failed(e) => match handle_io_error(e) {
            ErrorAction::Terminate(x) => RxAction::Fail(x),
            ErrorAction::Continue => RxAction::Retry,
        },
    }
}

/// Relies on `std::io::Error::new`: the error carries the kind it was built with.
#[verifier::external_body]
fn new_io_error(kind: std::io::ErrorKind, message: &str) -> (r: std::io::Error)
    ensures
        io_kind_of(r) == kind,
{
    std::io::Error::new(kind, message)
}

/// The error with which an rx loop ends when the reply channel is closed:
/// the aggregator is gone and the proxy is shutting down.
pub fn reply_channel_closed() -> (r: std::io::Error)
    ensures
        io_kind_of(r) == std::io::ErrorKind::ConnectionAborted,
{
    new_io_error(
        std::io::ErrorKind::ConnectionAborted,
        "the reply aggregator has stopped; dropping the reply as the proxy shuts down",
    )
}

} // verus!
