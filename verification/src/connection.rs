//! Connections.
use std::collections::VecDeque;
use std::task::{Context, Poll, Waker};

use bytes::Bytes;

use vstd::prelude::*;

use crate::buffer::{bytes_data, contents_of, WriteBuffer, WriteBufferView};
use crate::keylog::{texts_of, TlsSecrets};
use crate::status::Status;
use crate::stream::{split_handle, ReadStream, StartError as StreamStartError, StreamType};
use crate::sync::{context_waker, drain_wakers, register_waker, registered};

verus! {

/// Errors that can occur when managing a connection.
#[derive(Clone, Copy, Debug, PartialEq, Eq, Structural)]
pub enum ConnectionError {
    ConnectionNotStarted,
    ShutdownByTransport(Status, u64),
    ShutdownByPeer(u64),
    ShutdownByLocal,
    ConnectionClosed,
    SslKeyLogFileAlreadySet,
    OtherError(Status),
}

/// Errors that can occur when receiving a datagram.
#[derive(Clone, Copy, Debug, PartialEq, Eq, Structural)]
pub enum DgramReceiveError {
    ConnectionNotStarted,
    ConnectionLost(ConnectionError),
    OtherError(Status),
}

/// Errors that can occur when sending a datagram.
#[derive(Clone, Copy, Debug, PartialEq, Eq, Structural)]
pub enum DgramSendError {
    ConnectionNotStarted,
    Denied,
    TooBig,
    ConnectionLost(ConnectionError),
    OtherError(Status),
}

/// Errors that can occur when starting a connection.
#[derive(Clone, Copy, Debug, PartialEq, Eq, Structural)]
pub enum StartError {
    ConnectionNotStarted,
    ConnectionLost(ConnectionError),
    OtherError(Status),
}

/// Errors that can occur when shutting a connection down.
#[derive(Clone, Copy, Debug, PartialEq, Eq, Structural)]
pub enum ShutdownError {
    ConnectionNotStarted,
    ConnectionLost(ConnectionError),
    OtherError(Status),
}

/// Errors that can occur when receiving events on a connection.
#[derive(Clone, Copy, Debug, PartialEq, Eq, Structural)]
pub enum EventError {
    ConnectionNotStarted,
    ConnectionLost(ConnectionError),
    OtherError(Status),
}

/// An IP address with a port.
#[derive(Clone, Copy, Debug, PartialEq, Eq, Structural)]
pub enum Address {
    V4 { ipv4: u32, port: u16 },
    V6 { ipv6: u128, port: u16, flowinfo: u32, scope_id: u32 },
}

/// Events that can occur on a connection.
#[derive(Clone, Debug, PartialEq, Eq)]
#[non_exhaustive]
pub enum ConnectionEvent {
    /// A new observed address has been detected.
    NotifyObservedAddress { local_address: Address, observed_address: Address },
    /// A new remote address has been added.
    NotifyRemoteAddressAdded { address: Address, sequence_number: u64 },
    /// A path has been validated.
    PathValidated { local_address: Address, remote_address: Address },
    /// A remote address has been removed.
    NotifyRemoteAddressRemoved { sequence_number: u64 },
    /// Resumption ticket has been received from the peer.
    ResumptionTicketReceived { resumption_ticket: Vec<u8> },
    /// A path has been added to the connection.
    PathAdded { local_address: Address, peer_address: Address, path_id: u32 },
    /// A path has been removed from the connection.
    PathRemoved { local_address: Address, peer_address: Address, path_id: u32 },
    /// The peer has declared a path available or backup.
    PathStatusChanged {
        local_address: Address,
        peer_address: Address,
        path_id: u32,
        is_active: bool,
    },
    /// What the connection may send as a datagram has changed: `send_enabled` is false when the
    /// peer has not advertised datagram support, and `max_send_length` is the largest datagram
    /// that will be accepted.
    DatagramStateChanged { send_enabled: bool, max_send_length: u16 },
}

/// What a [`ConnectionEvent`] says.
#[verifier::ext_equal]
pub enum EventView {
    NotifyObservedAddress { local_address: Address, observed_address: Address },
    NotifyRemoteAddressAdded { address: Address, sequence_number: u64 },
    PathValidated { local_address: Address, remote_address: Address },
    NotifyRemoteAddressRemoved { sequence_number: u64 },
    ResumptionTicketReceived { resumption_ticket: Seq<u8> },
    PathAdded { local_address: Address, peer_address: Address, path_id: u32 },
    PathRemoved { local_address: Address, peer_address: Address, path_id: u32 },
    PathStatusChanged {
        local_address: Address,
        peer_address: Address,
        path_id: u32,
        is_active: bool,
    },
    DatagramStateChanged { send_enabled: bool, max_send_length: u16 },
}

impl View for ConnectionEvent {
    type V = EventView;

    open spec fn view(&self) -> EventView {
        match *self {
            ConnectionEvent::NotifyObservedAddress { local_address, observed_address } => {
                EventView::NotifyObservedAddress { local_address, observed_address }
            },
            ConnectionEvent::NotifyRemoteAddressAdded { address, sequence_number } => {
                EventView::NotifyRemoteAddressAdded { address, sequence_number }
            },
            ConnectionEvent::PathValidated { local_address, remote_address } => {
                EventView::PathValidated { local_address, remote_address }
            },
            ConnectionEvent::NotifyRemoteAddressRemoved { sequence_number } => {
                EventView::NotifyRemoteAddressRemoved { sequence_number }
            },
            ConnectionEvent::ResumptionTicketReceived { resumption_ticket } => {
                EventView::ResumptionTicketReceived { resumption_ticket: resumption_ticket@ }
            },
            ConnectionEvent::PathAdded { local_address, peer_address, path_id } => {
                EventView::PathAdded { local_address, peer_address, path_id }
            },
            ConnectionEvent::PathRemoved { local_address, peer_address, path_id } => {
                EventView::PathRemoved { local_address, peer_address, path_id }
            },
            ConnectionEvent::PathStatusChanged {
                local_address,
                peer_address,
                path_id,
                is_active,
            } => {
                EventView::PathStatusChanged { local_address, peer_address, path_id, is_active }
            },
            ConnectionEvent::DatagramStateChanged { send_enabled, max_send_length } => {
                EventView::DatagramStateChanged { send_enabled, max_send_length }
            },
        }
    }
}

#[derive(Clone, Copy, Debug, PartialEq, Eq, Structural)]
pub enum ConnectionState {
    Open,
    Connecting,
    Connected,
    Shutdown,
    ShutdownComplete,
}

/// How far a datagram has come.
#[derive(Clone, Copy, Debug, PartialEq, Eq, Structural)]
pub enum DatagramSendState {
    Unknown,
    Sent,
    LostSuspect,
    LostDiscarded,
    Acknowledged,
    AcknowledgedSpurious,
    Canceled,
}

impl DatagramSendState {
    /// MsQuic is done with the buffer of the datagram.
    pub open spec fn returns_buffer_spec(self) -> bool {
        self == DatagramSendState::Sent || self == DatagramSendState::Canceled
    }

    /// MsQuic is done with the buffer of the datagram.
    pub fn returns_buffer(self) -> (done: bool)
        ensures
            done == self.returns_buffer_spec(),
    {
        match self {
            DatagramSendState::Sent | DatagramSendState::Canceled => true,
            _ => false,
        }
    }
}

/// What MsQuic tells of a connection. `S` is a handle to a stream.
pub enum NativeEvent<'a, S> {
    /// The peer's certificate arrived; `verdict` is that of the application's handler, if it set
    /// one.
    PeerCertificateReceived { verdict: Option<Result<(), Status>> },
    /// The handshake is complete; `secrets` is what MsQuic left in the TLS secrets of the
    /// connection, where it has any.
    Connected { secrets: &'a TlsSecrets },
    ShutdownInitiatedByTransport { status: Status, error_code: u64 },
    ShutdownInitiatedByPeer { error_code: u64 },
    ShutdownComplete,
    /// The peer opened a stream. `stream` leads to its handle, which was taken over by
    /// [`TrackedHandle::adopt`](crate::registration::TrackedHandle::adopt).
    PeerStreamStarted { stream: S, unidirectional: bool },
    StreamsAvailable,
    DatagramStateChanged { send_enabled: bool, max_send_length: u16 },
    DatagramReceived { buffer: &'a [u8] },
    /// `returned` is the buffer of the datagram, where MsQuic is done with it.
    DatagramSendStateChanged { state: DatagramSendState, returned: Option<WriteBuffer> },
    ResumptionTicketReceived { resumption_ticket: &'a [u8] },
    /// An address is `None` where it is not that of a socket.
    NotifyObservedAddress { local_address: Option<Address>, observed_address: Option<Address> },
    NotifyRemoteAddressAdded { address: Option<Address>, sequence_number: u64 },
    PathValidated { local_address: Option<Address>, remote_address: Option<Address> },
    NotifyRemoteAddressRemoved { sequence_number: u64 },
    PathAdded { local_address: Option<Address>, peer_address: Option<Address>, path_id: u32 },
    PathRemoved { local_address: Option<Address>, peer_address: Option<Address>, path_id: u32 },
    PathStatusChanged {
        local_address: Option<Address>,
        peer_address: Option<Address>,
        path_id: u32,
        is_active: bool,
    },
    /// Anything else.
    Other,
}

/// What happened to a path.
#[derive(Clone, Copy, Debug, PartialEq, Eq, Structural)]
enum PathChange {
    Added { path_id: u32 },
    Removed { path_id: u32 },
    Status { path_id: u32, is_active: bool },
}

impl PathChange {
    spec fn event(self, local_address: Address, peer_address: Address) -> EventView {
        match self {
            PathChange::Added { path_id } => EventView::PathAdded {
                local_address,
                peer_address,
                path_id,
            },
            PathChange::Removed { path_id } => EventView::PathRemoved {
                local_address,
                peer_address,
                path_id,
            },
            PathChange::Status { path_id, is_active } => EventView::PathStatusChanged {
                local_address,
                peer_address,
                path_id,
                is_active,
            },
        }
    }
}

/// Lines to append to a key log file.
pub struct KeyLog<F> {
    pub file: F,
    pub lines: Vec<String>,
}

/// The failure that MsQuic is answered with.
#[derive(Clone, Copy, Debug, PartialEq, Eq, Structural)]
pub enum EventFailure {
    /// A status that the application chose.
    Rejected(Status),
    /// The status for an internal error.
    InternalError,
}

/// What came of an event.
pub struct ConnectionReply<F> {
    /// The answer to MsQuic.
    pub result: Result<(), EventFailure>,
    /// The wakers to wake.
    pub woken: Vec<Waker>,
    /// The TLS secrets to log.
    pub key_log: Option<KeyLog<F>>,
}

/// What a user of the connection finds.
#[derive(Clone, Copy, Debug, PartialEq, Eq, Structural)]
pub enum Gate {
    NotStarted,
    Starting,
    Open,
    Lost(ConnectionError),
}

/// A connection. `S` is a handle to a stream, `T` holds the TLS secrets for MsQuic to fill in, and
/// `F` is a key log file.
///
/// The connection decides: what it asks of MsQuic comes back from its methods as values, for the
/// owner of the native handle to carry out, and what MsQuic made of a request is handed in.
pub struct Connection<S, T, F> {
    state: ConnectionState,
    error: Option<ConnectionError>,
    start_waiters: Vec<Waker>,
    inbound_stream_waiters: Vec<Waker>,
    inbound_uni_stream_waiters: Vec<Waker>,
    inbound_streams: VecDeque<S>,
    inbound_uni_streams: VecDeque<ReadStream<S>>,
    recv_buffers: VecDeque<Bytes>,
    recv_waiters: Vec<Waker>,
    write_pool: Vec<WriteBuffer>,
    dgram_send_enabled: bool,
    dgram_max_send_length: u16,
    shutdown_waiters: Vec<Waker>,
    events: VecDeque<ConnectionEvent>,
    event_waiters: Vec<Waker>,
    sslkeylog_file: Option<F>,
    tls_secrets: Option<T>,
}

/// What a [`Connection`] holds.
#[verifier::ext_equal]
#[verifier::reject_recursive_types(S)]
pub struct ConnectionView<S, T, F> {
    pub state: ConnectionState,
    /// Why the connection went away.
    pub error: Option<ConnectionError>,
    pub start_waiters: Seq<Waker>,
    pub inbound_stream_waiters: Seq<Waker>,
    pub inbound_uni_stream_waiters: Seq<Waker>,
    /// Streams that the peer opened and nobody accepted yet.
    pub inbound_streams: Seq<S>,
    pub inbound_uni_streams: Seq<ReadStream<S>>,
    /// Datagrams that nobody received yet.
    pub recv_buffers: Seq<Seq<u8>>,
    pub recv_waiters: Seq<Waker>,
    /// How many blank buffers are kept for later datagrams.
    pub write_pool: nat,
    pub dgram_send_enabled: bool,
    pub dgram_max_send_length: u16,
    pub shutdown_waiters: Seq<Waker>,
    /// Events that nobody polled yet.
    pub events: Seq<EventView>,
    pub event_waiters: Seq<Waker>,
    pub sslkeylog_file: Option<F>,
    pub tls_secrets: Option<T>,
}

/// The views of a list of events.
pub open spec fn events_of(events: Seq<ConnectionEvent>) -> Seq<EventView> {
    events.map_values(|event: ConnectionEvent| event@)
}

/// `events` with `state` in place of the entry that told of an older datagram state, or at the end
/// where there is none.
pub open spec fn coalesced(events: Seq<EventView>, state: EventView) -> Seq<EventView>
    decreases events.len(),
{
    if events.len() == 0 {
        seq![state]
    } else if events[0] is DatagramStateChanged {
        events.update(0, state)
    } else {
        seq![events[0]] + coalesced(events.drop_first(), state)
    }
}

/// At most one entry tells of the datagram state.
pub open spec fn one_datagram_state(events: Seq<EventView>) -> bool {
    forall|i: int, j: int|
        0 <= i < j < events.len() ==> !(#[trigger] events[i] is DatagramStateChanged
            && #[trigger] events[j] is DatagramStateChanged)
}

/// The entry that is replaced is the first one that tells of the datagram state.
proof fn coalesced_at(events: Seq<EventView>, state: EventView, i: int)
    requires
        0 <= i <= events.len(),
        forall|j: int| 0 <= j < i ==> !(#[trigger] events[j] is DatagramStateChanged),
        i < events.len() ==> events[i] is DatagramStateChanged,
    ensures
        coalesced(events, state) == if i < events.len() {
            events.update(i, state)
        } else {
            events.push(state)
        },
    decreases events.len(),
{
    if events.len() > 0 && i > 0 {
        coalesced_at(events.drop_first(), state, i - 1);
        if i < events.len() {
            assert(seq![events[0]] + events.drop_first().update(i - 1, state) =~= events.update(
                i,
                state,
            ));
        } else {
            assert(seq![events[0]] + events.drop_first().push(state) =~= events.push(state));
        }
    } else if events.len() == 0 {
        assert(seq![state] =~= events.push(state));
    }
}

impl<S, T, F> View for Connection<S, T, F> {
    type V = ConnectionView<S, T, F>;

    closed spec fn view(&self) -> ConnectionView<S, T, F> {
        ConnectionView {
            state: self.state,
            error: self.error,
            start_waiters: self.start_waiters@,
            inbound_stream_waiters: self.inbound_stream_waiters@,
            inbound_uni_stream_waiters: self.inbound_uni_stream_waiters@,
            inbound_streams: self.inbound_streams@,
            inbound_uni_streams: self.inbound_uni_streams@,
            recv_buffers: contents_of(self.recv_buffers@),
            recv_waiters: self.recv_waiters@,
            write_pool: self.write_pool@.len(),
            dgram_send_enabled: self.dgram_send_enabled,
            dgram_max_send_length: self.dgram_max_send_length,
            shutdown_waiters: self.shutdown_waiters@,
            events: events_of(self.events@),
            event_waiters: self.event_waiters@,
            sslkeylog_file: self.sslkeylog_file,
            tls_secrets: self.tls_secrets,
        }
    }
}

impl<S, T, F> ConnectionView<S, T, F> {
    /// A connection on which nothing happened yet.
    pub open spec fn fresh(
        state: ConnectionState,
        tls_secrets: Option<T>,
        sslkeylog_file: Option<F>,
    ) -> Self {
        ConnectionView {
            state,
            error: None,
            start_waiters: Seq::empty(),
            inbound_stream_waiters: Seq::empty(),
            inbound_uni_stream_waiters: Seq::empty(),
            inbound_streams: Seq::empty(),
            inbound_uni_streams: Seq::empty(),
            recv_buffers: Seq::empty(),
            recv_waiters: Seq::empty(),
            write_pool: 0,
            dgram_send_enabled: false,
            dgram_max_send_length: 0,
            shutdown_waiters: Seq::empty(),
            events: Seq::empty(),
            event_waiters: Seq::empty(),
            sslkeylog_file,
            tls_secrets,
        }
    }

    /// What a user of the connection finds.
    pub open spec fn gate(self) -> Gate {
        match self.state {
            ConnectionState::Open => Gate::NotStarted,
            ConnectionState::Connecting => Gate::Starting,
            ConnectionState::Connected => Gate::Open,
            ConnectionState::Shutdown | ConnectionState::ShutdownComplete => Gate::Lost(
                self.error->0,
            ),
        }
    }

    /// The connection is going away because of `error`.
    pub open spec fn shut_down(self, error: ConnectionError) -> Self {
        ConnectionView { state: ConnectionState::Shutdown, error: Some(error), ..self }
    }

    /// `event` was queued, and nobody waits for events any more.
    pub open spec fn queued(self, event: EventView) -> Self {
        ConnectionView { events: self.events.push(event), event_waiters: Seq::empty(), ..self }
    }

    /// The event that is queued where both addresses are those of sockets.
    pub open spec fn queued_if(self, known: bool, event: EventView) -> Self {
        if known {
            self.queued(event)
        } else {
            self
        }
    }

    /// The answer that MsQuic gets to an event.
    pub open spec fn answer_to(event: NativeEvent<'_, S>) -> Result<(), EventFailure> {
        match event {
            NativeEvent::PeerCertificateReceived { verdict: Some(Err(status)) } => Err(
                EventFailure::Rejected(status),
            ),
            _ => Ok(()),
        }
    }

    /// The log lines that an event asks to be written: none unless the connection is established
    /// with a key log file set.
    pub open spec fn logged_by(self, event: NativeEvent<'_, S>) -> Option<(F, Seq<Seq<char>>)> {
        match event {
            NativeEvent::Connected { secrets } => match (self.tls_secrets, self.sslkeylog_file) {
                (Some(_), Some(file)) => Some((file, secrets.key_log())),
                _ => None,
            },
            _ => None,
        }
    }

    /// What an event makes of the connection.
    pub open spec fn after_event(self, event: NativeEvent<'_, S>) -> Self {
        match event {
            NativeEvent::Connected { .. } => ConnectionView {
                state: ConnectionState::Connected,
                start_waiters: Seq::empty(),
                sslkeylog_file: None,
                tls_secrets: if self.sslkeylog_file is Some {
                    self.tls_secrets
                } else {
                    None
                },
                ..self
            },
            NativeEvent::ShutdownInitiatedByTransport { status, error_code } => ConnectionView {
                start_waiters: Seq::empty(),
                inbound_stream_waiters: Seq::empty(),
                recv_waiters: Seq::empty(),
                ..self.shut_down(ConnectionError::ShutdownByTransport(status, error_code))
            },
            NativeEvent::ShutdownInitiatedByPeer { error_code } => ConnectionView {
                start_waiters: Seq::empty(),
                inbound_stream_waiters: Seq::empty(),
                recv_waiters: Seq::empty(),
                ..self.shut_down(ConnectionError::ShutdownByPeer(error_code))
            },
            NativeEvent::ShutdownComplete => ConnectionView {
                state: ConnectionState::ShutdownComplete,
                error: if self.error is Some {
                    self.error
                } else {
                    Some(ConnectionError::ShutdownByLocal)
                },
                start_waiters: Seq::empty(),
                inbound_stream_waiters: Seq::empty(),
                recv_waiters: Seq::empty(),
                shutdown_waiters: Seq::empty(),
                event_waiters: Seq::empty(),
                ..self
            },
            NativeEvent::PeerStreamStarted { stream, unidirectional } => if unidirectional {
                ConnectionView {
                    inbound_uni_streams: self.inbound_uni_streams.push(ReadStream(stream)),
                    inbound_uni_stream_waiters: Seq::empty(),
                    ..self
                }
            } else {
                ConnectionView {
                    inbound_streams: self.inbound_streams.push(stream),
                    inbound_stream_waiters: Seq::empty(),
                    ..self
                }
            },
            NativeEvent::DatagramStateChanged { send_enabled, max_send_length } => ConnectionView {
                dgram_send_enabled: send_enabled,
                dgram_max_send_length: max_send_length,
                events: coalesced(
                    self.events,
                    EventView::DatagramStateChanged { send_enabled, max_send_length },
                ),
                event_waiters: Seq::empty(),
                ..self
            },
            NativeEvent::DatagramReceived { buffer } => ConnectionView {
                recv_buffers: self.recv_buffers.push(buffer@),
                recv_waiters: Seq::empty(),
                ..self
            },
            NativeEvent::DatagramSendStateChanged { state, .. } => ConnectionView {
                write_pool: if state.returns_buffer_spec() {
                    self.write_pool + 1
                } else {
                    self.write_pool
                },
                ..self
            },
            NativeEvent::ResumptionTicketReceived { resumption_ticket } => self.queued(
                EventView::ResumptionTicketReceived { resumption_ticket: resumption_ticket@ },
            ),
            NativeEvent::NotifyObservedAddress { local_address, observed_address } => {
                self.queued_if(
                    local_address is Some && observed_address is Some,
                    EventView::NotifyObservedAddress {
                        local_address: local_address->0,
                        observed_address: observed_address->0,
                    },
                )
            },
            NativeEvent::NotifyRemoteAddressAdded { address, sequence_number } => self.queued_if(
                address is Some,
                EventView::NotifyRemoteAddressAdded { address: address->0, sequence_number },
            ),
            NativeEvent::PathValidated { local_address, remote_address } => self.queued_if(
                local_address is Some && remote_address is Some,
                EventView::PathValidated {
                    local_address: local_address->0,
                    remote_address: remote_address->0,
                },
            ),
            NativeEvent::NotifyRemoteAddressRemoved { sequence_number } => self.queued(
                EventView::NotifyRemoteAddressRemoved { sequence_number },
            ),
            NativeEvent::PathAdded { local_address, peer_address, path_id } => self.queued_if(
                local_address is Some && peer_address is Some,
                EventView::PathAdded {
                    local_address: local_address->0,
                    peer_address: peer_address->0,
                    path_id,
                },
            ),
            NativeEvent::PathRemoved { local_address, peer_address, path_id } => self.queued_if(
                local_address is Some && peer_address is Some,
                EventView::PathRemoved {
                    local_address: local_address->0,
                    peer_address: peer_address->0,
                    path_id,
                },
            ),
            NativeEvent::PathStatusChanged { local_address, peer_address, path_id, is_active } => {
                self.queued_if(
                    local_address is Some && peer_address is Some,
                    EventView::PathStatusChanged {
                        local_address: local_address->0,
                        peer_address: peer_address->0,
                        path_id,
                        is_active,
                    },
                )
            },
            NativeEvent::PeerCertificateReceived { .. }
            | NativeEvent::StreamsAvailable
            | NativeEvent::Other => self,
        }
    }

    /// The wakers that an event hands out: those of the lists that it empties.
    pub open spec fn woken_by(self, event: NativeEvent<'_, S>) -> Seq<Waker> {
        match event {
            NativeEvent::Connected { .. } => self.start_waiters,
            NativeEvent::ShutdownInitiatedByTransport { .. }
            | NativeEvent::ShutdownInitiatedByPeer { .. } => self.start_waiters
                + self.inbound_stream_waiters + self.recv_waiters,
            NativeEvent::ShutdownComplete => self.start_waiters + self.inbound_stream_waiters
                + self.recv_waiters + self.shutdown_waiters + self.event_waiters,
            NativeEvent::PeerStreamStarted { unidirectional, .. } => if unidirectional {
                self.inbound_uni_stream_waiters
            } else {
                self.inbound_stream_waiters
            },
            NativeEvent::DatagramReceived { .. } => self.recv_waiters,
            NativeEvent::DatagramStateChanged { .. }
            | NativeEvent::ResumptionTicketReceived { .. }
            | NativeEvent::NotifyRemoteAddressRemoved { .. } => self.event_waiters,
            NativeEvent::NotifyObservedAddress { local_address, observed_address } => {
                self.event_waiters_if(local_address is Some && observed_address is Some)
            },
            NativeEvent::NotifyRemoteAddressAdded { address, .. } => self.event_waiters_if(
                address is Some,
            ),
            NativeEvent::PathValidated { local_address, remote_address } => self.event_waiters_if(
                local_address is Some && remote_address is Some,
            ),
            NativeEvent::PathAdded { local_address, peer_address, .. }
            | NativeEvent::PathRemoved { local_address, peer_address, .. }
            | NativeEvent::PathStatusChanged { local_address, peer_address, .. } => {
                self.event_waiters_if(local_address is Some && peer_address is Some)
            },
            NativeEvent::PeerCertificateReceived { .. }
            | NativeEvent::StreamsAvailable
            | NativeEvent::DatagramSendStateChanged { .. }
            | NativeEvent::Other => Seq::empty(),
        }
    }

    /// Those who wait for events, where one was queued.
    pub open spec fn event_waiters_if(self, known: bool) -> Seq<Waker> {
        if known {
            self.event_waiters
        } else {
            Seq::empty()
        }
    }

    /// What the event queue says of the datagram state.
    pub open spec fn datagram_state(self) -> EventView {
        EventView::DatagramStateChanged {
            send_enabled: self.dgram_send_enabled,
            max_send_length: self.dgram_max_send_length,
        }
    }

    /// Once the connection is going away it is known why. At most one entry of the event queue
    /// tells of the datagram state, and it tells of the current one.
    pub open spec fn well_formed(self) -> bool {
        &&& self.state == ConnectionState::Shutdown || self.state
            == ConnectionState::ShutdownComplete ==> self.error is Some
        &&& one_datagram_state(self.events)
        &&& forall|i: int|
            0 <= i < self.events.len() && #[trigger] self.events[i] is DatagramStateChanged
                ==> self.events[i] == self.datagram_state()
    }
}

/// The state is the same, but that the waker of `cx` was recorded among those that wait for the
/// connection to start.
pub open spec fn waited_for_start<S, T, F>(
    before: ConnectionView<S, T, F>,
    cx: Context<'_>,
    after: ConnectionView<S, T, F>,
) -> bool {
    &&& registered(before.start_waiters, context_waker(cx), after.start_waiters)
    &&& after == (ConnectionView { start_waiters: after.start_waiters, ..before })
}

/// The state is the same, but that the waker of `cx` was recorded among those that wait for the
/// connection to be shut down.
pub open spec fn waited_for_shutdown<S, T, F>(
    before: ConnectionView<S, T, F>,
    cx: Context<'_>,
    after: ConnectionView<S, T, F>,
) -> bool {
    &&& registered(before.shutdown_waiters, context_waker(cx), after.shutdown_waiters)
    &&& after == (ConnectionView { shutdown_waiters: after.shutdown_waiters, ..before })
}

/// An attempt to send `datagram` on a connection that is up came to `sending`: the datagram alone
/// is in the buffer to hand to MsQuic, unless datagrams cannot be sent or it is too long.
pub open spec fn datagram_taken<S, T, F>(
    before: ConnectionView<S, T, F>,
    datagram: Seq<u8>,
    sending: Result<WriteBuffer, DgramSendError>,
    after: ConnectionView<S, T, F>,
) -> bool {
    if !before.dgram_send_enabled {
        &&& sending == Err::<WriteBuffer, DgramSendError>(DgramSendError::Denied)
        &&& after == before
    } else if datagram.len() > before.dgram_max_send_length {
        &&& sending == Err::<WriteBuffer, DgramSendError>(DgramSendError::TooBig)
        &&& after == before
    } else {
        &&& sending matches Ok(buffer)
        &&& buffer@ == (WriteBufferView { internal: Seq::empty(), zerocopy: seq![datagram] })
        &&& after == (ConnectionView {
            write_pool: if before.write_pool > 0 {
                (before.write_pool - 1) as nat
            } else {
                0
            },
            ..before
        })
    }
}

impl<S, T, F> Connection<S, T, F> {
    /// The view is consistent, and pooled buffers are blank.
    pub closed spec fn well_formed(&self) -> bool {
        &&& self@.well_formed()
        &&& forall|i: int|
            0 <= i < self.write_pool@.len() ==> (#[trigger] self.write_pool@[i])@
                == WriteBufferView::blank()
    }

    /// What is known of the view.
    pub proof fn well_formed_view(&self)
        requires
            self.well_formed(),
        ensures
            self@.well_formed(),
    {
    }

    fn fresh(
        state: ConnectionState,
        tls_secrets: Option<T>,
        sslkeylog_file: Option<F>,
    ) -> (connection: Self)
        requires
            state == ConnectionState::Open || state == ConnectionState::Connecting,
        ensures
            connection.well_formed(),
            connection@ == ConnectionView::<S, T, F>::fresh(state, tls_secrets, sslkeylog_file),
    {
        let connection = Connection {
            state,
            error: None,
            start_waiters: Vec::new(),
            inbound_stream_waiters: Vec::new(),
            inbound_uni_stream_waiters: Vec::new(),
            inbound_streams: VecDeque::new(),
            inbound_uni_streams: VecDeque::new(),
            recv_buffers: VecDeque::new(),
            recv_waiters: Vec::new(),
            write_pool: Vec::new(),
            dgram_send_enabled: false,
            dgram_max_send_length: 0,
            shutdown_waiters: Vec::new(),
            events: VecDeque::new(),
            event_waiters: Vec::new(),
            sslkeylog_file,
            tls_secrets,
        };
        assert(connection@.recv_buffers =~= Seq::empty());
        assert(connection@.events =~= Seq::empty());
        connection
    }

    /// A connection that this side opens; not started yet.
    pub fn new() -> (connection: Self)
        ensures
            connection.well_formed(),
            connection@ == ConnectionView::<S, T, F>::fresh(ConnectionState::Open, None, None),
    {
        Self::fresh(ConnectionState::Open, None, None)
    }

    /// A connection that a peer opened; the handshake is under way.
    pub fn from_raw(tls_secrets: Option<T>, sslkeylog_file: Option<F>) -> (connection: Self)
        ensures
            connection.well_formed(),
            connection@ == ConnectionView::<S, T, F>::fresh(
                ConnectionState::Connecting,
                tls_secrets,
                sslkeylog_file,
            ),
    {
        Self::fresh(ConnectionState::Connecting, tls_secrets, sslkeylog_file)
    }

    /// What a user of the connection finds.
    pub fn gate(&self) -> (gate: Gate)
        requires
            self.well_formed(),
        ensures
            gate == self@.gate(),
    {
        match self.state {
            ConnectionState::Open => Gate::NotStarted,
            ConnectionState::Connecting => Gate::Starting,
            ConnectionState::Connected => Gate::Open,
            ConnectionState::Shutdown | ConnectionState::ShutdownComplete => Gate::Lost(
                self.error.unwrap(),
            ),
        }
    }

    /// Whether the native connection has to be started.
    pub fn must_start(&self) -> (must: bool)
        ensures
            must == (self@.state == ConnectionState::Open),
    {
        self.state == ConnectionState::Open
    }

    /// Start the connection, and wait for that. `started` is what came of starting the native
    /// connection, which only counts where [`Connection::must_start`].
    pub fn poll_start(&mut self, cx: &Context<'_>, started: Result<(), Status>) -> (answer: Poll<
        Result<(), StartError>,
    >)
        requires
            old(self).well_formed(),
        ensures
            final(self).well_formed(),
            match old(self)@.gate() {
                Gate::NotStarted => match started {
                    Ok(()) => {
                        &&& answer == Poll::<Result<(), StartError>>::Pending
                        &&& waited_for_start(
                            ConnectionView { state: ConnectionState::Connecting, ..old(self)@ },
                            *cx,
                            final(self)@,
                        )
                    },
                    Err(status) => {
                        &&& answer == Poll::<Result<(), StartError>>::Ready(
                            Err(StartError::OtherError(status)),
                        )
                        &&& final(self)@ == old(self)@
                    },
                },
                Gate::Starting => {
                    &&& answer == Poll::<Result<(), StartError>>::Pending
                    &&& waited_for_start(old(self)@, *cx, final(self)@)
                },
                Gate::Open => {
                    &&& answer == Poll::<Result<(), StartError>>::Ready(Ok(()))
                    &&& final(self)@ == old(self)@
                },
                Gate::Lost(error) => {
                    &&& answer == Poll::<Result<(), StartError>>::Ready(
                        Err(StartError::ConnectionLost(error)),
                    )
                    &&& final(self)@ == old(self)@
                },
            },
    {
        match self.gate() {
            Gate::NotStarted => {
                if let Err(status) = started {
                    return Poll::Ready(Err(StartError::OtherError(status)));
                }
                self.state = ConnectionState::Connecting;
            },
            Gate::Starting => {},
            Gate::Open => {
                return Poll::Ready(Ok(()));
            },
            Gate::Lost(error) => {
                return Poll::Ready(Err(StartError::ConnectionLost(error)));
            },
        }
        register_waker(&mut self.start_waiters, cx);
        Poll::Pending
    }

    /// Wait for the connection to be started. Mainly used for connections that a peer opened.
    pub fn poll_wait_start(&mut self, cx: &Context<'_>) -> (answer: Poll<Result<(), StartError>>)
        requires
            old(self).well_formed(),
        ensures
            final(self).well_formed(),
            old(self)@.gate() == Gate::Starting ==> {
                &&& answer == Poll::<Result<(), StartError>>::Pending
                &&& waited_for_start(old(self)@, *cx, final(self)@)
            },
            old(self)@.gate() != Gate::Starting ==> {
                &&& answer == Poll::Ready(
                    match old(self)@.gate() {
                        Gate::NotStarted => Err::<(), StartError>(
                            StartError::ConnectionNotStarted,
                        ),
                        Gate::Lost(error) => Err(StartError::ConnectionLost(error)),
                        _ => Ok(()),
                    },
                )
                &&& final(self)@ == old(self)@
            },
    {
        match self.gate() {
            Gate::NotStarted => Poll::Ready(Err(StartError::ConnectionNotStarted)),
            Gate::Starting => {
                register_waker(&mut self.start_waiters, cx);
                Poll::Pending
            },
            Gate::Open => Poll::Ready(Ok(())),
            Gate::Lost(error) => Poll::Ready(Err(StartError::ConnectionLost(error))),
        }
    }

    /// Accept a bidirectional stream that the peer opened.
    pub fn poll_accept_inbound_stream(&mut self, cx: &Context<'_>) -> (answer: Poll<
        Result<S, StreamStartError>,
    >)
        requires
            old(self).well_formed(),
        ensures
            final(self).well_formed(),
            match old(self)@.gate() {
                Gate::NotStarted => {
                    &&& answer == Poll::<Result<S, StreamStartError>>::Ready(
                        Err(StreamStartError::ConnectionNotStarted),
                    )
                    &&& final(self)@ == old(self)@
                },
                Gate::Starting => {
                    &&& answer == Poll::<Result<S, StreamStartError>>::Pending
                    &&& waited_for_start(old(self)@, *cx, final(self)@)
                },
                Gate::Open => if old(self)@.inbound_streams.len() > 0 {
                    &&& answer == Poll::<Result<S, StreamStartError>>::Ready(
                        Ok(old(self)@.inbound_streams[0]),
                    )
                    &&& final(self)@ == (ConnectionView {
                        inbound_streams: old(self)@.inbound_streams.drop_first(),
                        ..old(self)@
                    })
                } else {
                    &&& answer == Poll::<Result<S, StreamStartError>>::Pending
                    &&& registered(
                        old(self)@.inbound_stream_waiters,
                        context_waker(*cx),
                        final(self)@.inbound_stream_waiters,
                    )
                    &&& final(self)@ == (ConnectionView {
                        inbound_stream_waiters: final(self)@.inbound_stream_waiters,
                        ..old(self)@
                    })
                },
                Gate::Lost(error) => {
                    &&& answer == Poll::<Result<S, StreamStartError>>::Ready(
                        Err(StreamStartError::ConnectionLost(error)),
                    )
                    &&& final(self)@ == old(self)@
                },
            },
    {
        match self.gate() {
            Gate::NotStarted => {
                return Poll::Ready(Err(StreamStartError::ConnectionNotStarted));
            },
            Gate::Starting => {
                register_waker(&mut self.start_waiters, cx);
                return Poll::Pending;
            },
            Gate::Open => {},
            Gate::Lost(error) => {
                return Poll::Ready(Err(StreamStartError::ConnectionLost(error)));
            },
        }
        match self.inbound_streams.pop_front() {
            Some(stream) => {
                assert(self@.inbound_streams =~= old(self)@.inbound_streams.drop_first());
                Poll::Ready(Ok(stream))
            },
            None => {
                register_waker(&mut self.inbound_stream_waiters, cx);
                Poll::Pending
            },
        }
    }

    /// Accept a unidirectional stream that the peer opened.
    pub fn poll_accept_inbound_uni_stream(&mut self, cx: &Context<'_>) -> (answer: Poll<
        Result<ReadStream<S>, StreamStartError>,
    >)
        requires
            old(self).well_formed(),
        ensures
            final(self).well_formed(),
            match old(self)@.gate() {
                Gate::NotStarted => {
                    &&& answer == Poll::<Result<ReadStream<S>, StreamStartError>>::Ready(
                        Err(StreamStartError::ConnectionNotStarted),
                    )
                    &&& final(self)@ == old(self)@
                },
                Gate::Starting => {
                    &&& answer == Poll::<Result<ReadStream<S>, StreamStartError>>::Pending
                    &&& waited_for_start(old(self)@, *cx, final(self)@)
                },
                Gate::Open => if old(self)@.inbound_uni_streams.len() > 0 {
                    &&& answer == Poll::<Result<ReadStream<S>, StreamStartError>>::Ready(
                        Ok(old(self)@.inbound_uni_streams[0]),
                    )
                    &&& final(self)@ == (ConnectionView {
                        inbound_uni_streams: old(self)@.inbound_uni_streams.drop_first(),
                        ..old(self)@
                    })
                } else {
                    &&& answer == Poll::<Result<ReadStream<S>, StreamStartError>>::Pending
                    &&& registered(
                        old(self)@.inbound_uni_stream_waiters,
                        context_waker(*cx),
                        final(self)@.inbound_uni_stream_waiters,
                    )
                    &&& final(self)@ == (ConnectionView {
                        inbound_uni_stream_waiters: final(self)@.inbound_uni_stream_waiters,
                        ..old(self)@
                    })
                },
                Gate::Lost(error) => {
                    &&& answer == Poll::<Result<ReadStream<S>, StreamStartError>>::Ready(
                        Err(StreamStartError::ConnectionLost(error)),
                    )
                    &&& final(self)@ == old(self)@
                },
            },
    {
        match self.gate() {
            Gate::NotStarted => {
                return Poll::Ready(Err(StreamStartError::ConnectionNotStarted));
            },
            Gate::Starting => {
                register_waker(&mut self.start_waiters, cx);
                return Poll::Pending;
            },
            Gate::Open => {},
            Gate::Lost(error) => {
                return Poll::Ready(Err(StreamStartError::ConnectionLost(error)));
            },
        }
        match self.inbound_uni_streams.pop_front() {
            Some(stream) => {
                assert(self@.inbound_uni_streams =~= old(self)@.inbound_uni_streams.drop_first());
                Poll::Ready(Ok(stream))
            },
            None => {
                register_waker(&mut self.inbound_uni_stream_waiters, cx);
                Poll::Pending
            },
        }
    }

    /// Receive a datagram.
    pub fn poll_receive_datagram(&mut self, cx: &Context<'_>) -> (answer: Poll<
        Result<Bytes, DgramReceiveError>,
    >)
        requires
            old(self).well_formed(),
        ensures
            final(self).well_formed(),
            match old(self)@.gate() {
                Gate::NotStarted => {
                    &&& answer == Poll::<Result<Bytes, DgramReceiveError>>::Ready(
                        Err(DgramReceiveError::ConnectionNotStarted),
                    )
                    &&& final(self)@ == old(self)@
                },
                Gate::Starting => {
                    &&& answer == Poll::<Result<Bytes, DgramReceiveError>>::Pending
                    &&& waited_for_start(old(self)@, *cx, final(self)@)
                },
                Gate::Open => if old(self)@.recv_buffers.len() > 0 {
                    &&& answer matches Poll::Ready(Ok(datagram))
                    &&& bytes_data(datagram) == old(self)@.recv_buffers[0]
                    &&& final(self)@ == (ConnectionView {
                        recv_buffers: old(self)@.recv_buffers.drop_first(),
                        ..old(self)@
                    })
                } else {
                    &&& answer == Poll::<Result<Bytes, DgramReceiveError>>::Pending
                    &&& registered(
                        old(self)@.recv_waiters,
                        context_waker(*cx),
                        final(self)@.recv_waiters,
                    )
                    &&& final(self)@ == (ConnectionView {
                        recv_waiters: final(self)@.recv_waiters,
                        ..old(self)@
                    })
                },
                Gate::Lost(error) => {
                    &&& answer == Poll::<Result<Bytes, DgramReceiveError>>::Ready(
                        Err(DgramReceiveError::ConnectionLost(error)),
                    )
                    &&& final(self)@ == old(self)@
                },
            },
    {
        match self.gate() {
            Gate::NotStarted => {
                return Poll::Ready(Err(DgramReceiveError::ConnectionNotStarted));
            },
            Gate::Starting => {
                register_waker(&mut self.start_waiters, cx);
                return Poll::Pending;
            },
            Gate::Open => {},
            Gate::Lost(error) => {
                return Poll::Ready(Err(DgramReceiveError::ConnectionLost(error)));
            },
        }
        match self.recv_buffers.pop_front() {
            Some(datagram) => {
                assert(self@.recv_buffers =~= old(self)@.recv_buffers.drop_first());
                Poll::Ready(Ok(datagram))
            },
            None => {
                register_waker(&mut self.recv_waiters, cx);
                Poll::Pending
            },
        }
    }

    /// A buffer with `buf` in it, or the reason why the datagram cannot be sent now.
    fn begin_send_datagram(&mut self, buf: &Bytes) -> (sending: Result<
        WriteBuffer,
        DgramSendError,
    >)
        requires
            old(self).well_formed(),
        ensures
            final(self).well_formed(),
            datagram_taken(old(self)@, bytes_data(*buf), sending, final(self)@),
    {
        if !self.dgram_send_enabled {
            return Err(DgramSendError::Denied);
        }
        if buf.len() > self.dgram_max_send_length as usize {
            return Err(DgramSendError::TooBig);
        }
        let mut write_buf = match self.write_pool.pop() {
            Some(write_buf) => write_buf,
            None => WriteBuffer::new(),
        };
        let _ = write_buf.put_zerocopy(buf);
        assert(write_buf@.zerocopy =~= seq![bytes_data(*buf)]);
        Ok(write_buf)
    }

    /// Send a datagram, once the connection is started. Hand the buffer that comes back to MsQuic,
    /// and where it does not take it, to [`Connection::send_datagram_failed`].
    pub fn poll_send_datagram(&mut self, cx: &Context<'_>, buf: &Bytes) -> (answer: Poll<
        Result<WriteBuffer, DgramSendError>,
    >)
        requires
            old(self).well_formed(),
        ensures
            final(self).well_formed(),
            match old(self)@.gate() {
                Gate::NotStarted => {
                    &&& answer == Poll::<Result<WriteBuffer, DgramSendError>>::Ready(
                        Err(DgramSendError::ConnectionNotStarted),
                    )
                    &&& final(self)@ == old(self)@
                },
                Gate::Starting => {
                    &&& answer == Poll::<Result<WriteBuffer, DgramSendError>>::Pending
                    &&& waited_for_start(old(self)@, *cx, final(self)@)
                },
                Gate::Open => {
                    &&& answer matches Poll::Ready(sending)
                    &&& datagram_taken(old(self)@, bytes_data(*buf), sending, final(self)@)
                },
                Gate::Lost(error) => {
                    &&& answer == Poll::<Result<WriteBuffer, DgramSendError>>::Ready(
                        Err(DgramSendError::ConnectionLost(error)),
                    )
                    &&& final(self)@ == old(self)@
                },
            },
    {
        match self.gate() {
            Gate::NotStarted => {
                return Poll::Ready(Err(DgramSendError::ConnectionNotStarted));
            },
            Gate::Starting => {
                register_waker(&mut self.start_waiters, cx);
                return Poll::Pending;
            },
            Gate::Open => {},
            Gate::Lost(error) => {
                return Poll::Ready(Err(DgramSendError::ConnectionLost(error)));
            },
        }
        Poll::Ready(self.begin_send_datagram(buf))
    }

    /// Send a datagram. Hand the buffer that comes back to MsQuic, and where it does not take it,
    /// to [`Connection::send_datagram_failed`].
    pub fn send_datagram(&mut self, buf: &Bytes) -> (answer: Result<WriteBuffer, DgramSendError>)
        requires
            old(self).well_formed(),
        ensures
            final(self).well_formed(),
            match old(self)@.gate() {
                Gate::NotStarted | Gate::Starting => {
                    &&& answer == Err::<WriteBuffer, DgramSendError>(
                        DgramSendError::ConnectionNotStarted,
                    )
                    &&& final(self)@ == old(self)@
                },
                Gate::Open => datagram_taken(old(self)@, bytes_data(*buf), answer, final(self)@),
                Gate::Lost(error) => {
                    &&& answer == Err::<WriteBuffer, DgramSendError>(
                        DgramSendError::ConnectionLost(error),
                    )
                    &&& final(self)@ == old(self)@
                },
            },
    {
        match self.gate() {
            Gate::NotStarted | Gate::Starting => {
                return Err(DgramSendError::ConnectionNotStarted);
            },
            Gate::Open => {},
            Gate::Lost(error) => {
                return Err(DgramSendError::ConnectionLost(error));
            },
        }
        self.begin_send_datagram(buf)
    }

    /// MsQuic did not take the datagram: keep its buffer for a later one.
    pub fn send_datagram_failed(&mut self, buffer: WriteBuffer, status: Status) -> (answer: Result<
        (),
        DgramSendError,
    >)
        requires
            old(self).well_formed(),
        ensures
            final(self).well_formed(),
            answer == Err::<(), DgramSendError>(DgramSendError::OtherError(status)),
            final(self)@ == (ConnectionView {
                write_pool: old(self)@.write_pool + 1,
                ..old(self)@
            }),
    {
        let mut buffer = buffer;
        buffer.reset();
        self.write_pool.push(buffer);
        Err(DgramSendError::OtherError(status))
    }

    /// Shut the connection down, and wait for that. Shut the native connection down with the error
    /// code that comes back.
    pub fn poll_shutdown(&mut self, cx: &Context<'_>, error_code: u64) -> (answer: (
        Poll<Result<(), ShutdownError>>,
        Option<u64>,
    ))
        requires
            old(self).well_formed(),
        ensures
            final(self).well_formed(),
            match old(self)@.state {
                ConnectionState::Open => {
                    &&& answer.0 == Poll::<Result<(), ShutdownError>>::Ready(
                        Err(ShutdownError::ConnectionNotStarted),
                    )
                    &&& answer.1 is None
                    &&& final(self)@ == old(self)@
                },
                ConnectionState::Connecting => {
                    &&& answer.0 == Poll::<Result<(), ShutdownError>>::Pending
                    &&& answer.1 is None
                    &&& waited_for_start(old(self)@, *cx, final(self)@)
                },
                ConnectionState::Connected => {
                    &&& answer.0 == Poll::<Result<(), ShutdownError>>::Pending
                    &&& answer.1 == Some(error_code)
                    &&& waited_for_shutdown(
                        old(self)@.shut_down(ConnectionError::ShutdownByLocal),
                        *cx,
                        final(self)@,
                    )
                },
                ConnectionState::Shutdown => {
                    &&& answer.0 == Poll::<Result<(), ShutdownError>>::Pending
                    &&& answer.1 is None
                    &&& waited_for_shutdown(old(self)@, *cx, final(self)@)
                },
                ConnectionState::ShutdownComplete => {
                    &&& answer.0 == if old(self)@.error == Some(
                        ConnectionError::ShutdownByLocal,
                    ) {
                        Poll::<Result<(), ShutdownError>>::Ready(Ok(()))
                    } else {
                        Poll::Ready(Err(ShutdownError::ConnectionLost(old(self)@.error->0)))
                    }
                    &&& answer.1 is None
                    &&& final(self)@ == old(self)@
                },
            },
    {
        let mut native: Option<u64> = None;
        match self.state {
            ConnectionState::Open => {
                return (Poll::Ready(Err(ShutdownError::ConnectionNotStarted)), None);
            },
            ConnectionState::Connecting => {
                register_waker(&mut self.start_waiters, cx);
                return (Poll::Pending, None);
            },
            ConnectionState::Connected => {
                native = Some(error_code);
                self.state = ConnectionState::Shutdown;
                self.error = Some(ConnectionError::ShutdownByLocal);
            },
            ConnectionState::Shutdown => {},
            ConnectionState::ShutdownComplete => {
                let error = self.error.unwrap();
                if error == ConnectionError::ShutdownByLocal {
                    return (Poll::Ready(Ok(())), None);
                }
                return (Poll::Ready(Err(ShutdownError::ConnectionLost(error))), None);
            },
        }
        register_waker(&mut self.shutdown_waiters, cx);
        (Poll::Pending, native)
    }

    /// Shut the connection down, without waiting. Shut the native connection down with the error
    /// code that comes back.
    pub fn shutdown(&mut self, error_code: u64) -> (answer: (
        Result<(), ShutdownError>,
        Option<u64>,
    ))
        requires
            old(self).well_formed(),
        ensures
            final(self).well_formed(),
            match old(self)@.state {
                ConnectionState::Open | ConnectionState::Connecting => {
                    &&& answer.0 == Err::<(), ShutdownError>(ShutdownError::ConnectionNotStarted)
                    &&& answer.1 is None
                    &&& final(self)@ == old(self)@
                },
                ConnectionState::Connected => {
                    &&& answer.0 == Ok::<(), ShutdownError>(())
                    &&& answer.1 == Some(error_code)
                    &&& final(self)@ == old(self)@.shut_down(ConnectionError::ShutdownByLocal)
                },
                _ => {
                    &&& answer.0 == Ok::<(), ShutdownError>(())
                    &&& answer.1 is None
                    &&& final(self)@ == old(self)@
                },
            },
    {
        match self.state {
            ConnectionState::Open | ConnectionState::Connecting => {
                (Err(ShutdownError::ConnectionNotStarted), None)
            },
            ConnectionState::Connected => {
                self.state = ConnectionState::Shutdown;
                self.error = Some(ConnectionError::ShutdownByLocal);
                (Ok(()), Some(error_code))
            },
            _ => (Ok(()), None),
        }
    }

    /// Receive an event. What is queued can still be received while the connection shuts down.
    pub fn poll_event(&mut self, cx: &Context<'_>) -> (answer: Poll<
        Result<ConnectionEvent, EventError>,
    >)
        requires
            old(self).well_formed(),
        ensures
            final(self).well_formed(),
            match old(self)@.state {
                ConnectionState::Open => {
                    &&& answer == Poll::<Result<ConnectionEvent, EventError>>::Ready(
                        Err(EventError::ConnectionNotStarted),
                    )
                    &&& final(self)@ == old(self)@
                },
                ConnectionState::Connecting => {
                    &&& answer == Poll::<Result<ConnectionEvent, EventError>>::Pending
                    &&& waited_for_start(old(self)@, *cx, final(self)@)
                },
                ConnectionState::Connected | ConnectionState::Shutdown => if old(
                    self
                )@.events.len() > 0 {
                    &&& answer matches Poll::Ready(Ok(event))
                    &&& event@ == old(self)@.events[0]
                    &&& final(self)@ == (ConnectionView {
                        events: old(self)@.events.drop_first(),
                        ..old(self)@
                    })
                } else {
                    &&& answer == Poll::<Result<ConnectionEvent, EventError>>::Pending
                    &&& registered(
                        old(self)@.event_waiters,
                        context_waker(*cx),
                        final(self)@.event_waiters,
                    )
                    &&& final(self)@ == (ConnectionView {
                        event_waiters: final(self)@.event_waiters,
                        ..old(self)@
                    })
                },
                ConnectionState::ShutdownComplete => {
                    &&& answer == Poll::<Result<ConnectionEvent, EventError>>::Ready(
                        Err(EventError::ConnectionLost(old(self)@.error->0)),
                    )
                    &&& final(self)@ == old(self)@
                },
            },
    {
        match self.state {
            ConnectionState::Open => {
                return Poll::Ready(Err(EventError::ConnectionNotStarted));
            },
            ConnectionState::Connecting => {
                register_waker(&mut self.start_waiters, cx);
                return Poll::Pending;
            },
            ConnectionState::Connected | ConnectionState::Shutdown => {},
            ConnectionState::ShutdownComplete => {
                return Poll::Ready(Err(EventError::ConnectionLost(self.error.unwrap())));
            },
        }
        match self.events.pop_front() {
            Some(event) => {
                proof {
                    assert(self@.events =~= old(self)@.events.drop_first());
                    assert forall|i: int, j: int| 0 <= i < j < self@.events.len() implies !(
                    #[trigger] self@.events[i] is DatagramStateChanged
                        && #[trigger] self@.events[j] is DatagramStateChanged) by {
                        assert(self@.events[i] == old(self)@.events[i + 1]);
                        assert(self@.events[j] == old(self)@.events[j + 1]);
                    }
                    assert forall|i: int|
                        0 <= i < self@.events.len()
                            && #[trigger] self@.events[i] is DatagramStateChanged implies
                        self@.events[i] == self@.datagram_state() by {
                        assert(self@.events[i] == old(self)@.events[i + 1]);
                    }
                }
                Poll::Ready(Ok(event))
            },
            None => {
                register_waker(&mut self.event_waiters, cx);
                Poll::Pending
            },
        }
    }

    /// Whether TLS secrets have to be set up before a key log file can be set.
    pub fn needs_tls_secrets(&self) -> (needs: bool)
        ensures
            needs == (self@.sslkeylog_file is None && self@.tls_secrets is None),
    {
        self.sslkeylog_file.is_none() && self.tls_secrets.is_none()
    }

    /// Set the key log file. `fresh` is what MsQuic was told to fill in, and what came of telling
    /// it, where [`Connection::needs_tls_secrets`].
    pub fn set_sslkeylog_file(
        &mut self,
        file: F,
        fresh: Option<(T, Result<(), Status>)>,
    ) -> (answer: Result<(), ConnectionError>)
        requires
            old(self).well_formed(),
            old(self)@.sslkeylog_file is None && old(self)@.tls_secrets is None ==> fresh is Some,
        ensures
            final(self).well_formed(),
            if old(self)@.sslkeylog_file is Some {
                &&& answer == Err::<(), ConnectionError>(ConnectionError::SslKeyLogFileAlreadySet)
                &&& final(self)@ == old(self)@
            } else if old(self)@.tls_secrets is Some {
                &&& answer == Ok::<(), ConnectionError>(())
                &&& final(self)@ == (ConnectionView {
                    sslkeylog_file: Some(file),
                    ..old(self)@
                })
            } else {
                match (fresh->0).1 {
                    Ok(()) => {
                        &&& answer == Ok::<(), ConnectionError>(())
                        &&& final(self)@ == (ConnectionView {
                            sslkeylog_file: Some(file),
                            tls_secrets: Some((fresh->0).0),
                            ..old(self)@
                        })
                    },
                    Err(status) => {
                        &&& answer == Err::<(), ConnectionError>(
                            ConnectionError::OtherError(status),
                        )
                        &&& final(self)@ == (ConnectionView {
                            tls_secrets: Some((fresh->0).0),
                            ..old(self)@
                        })
                    },
                }
            },
    {
        if self.sslkeylog_file.is_some() {
            return Err(ConnectionError::SslKeyLogFileAlreadySet);
        }
        if self.tls_secrets.is_none() {
            if let Some((tls_secrets, registered)) = fresh {
                self.tls_secrets = Some(tls_secrets);
                if let Err(status) = registered {
                    return Err(ConnectionError::OtherError(status));
                }
            }
        }
        self.sslkeylog_file = Some(file);
        Ok(())
    }

    /// Whether a resumption ticket can be sent to the peer.
    pub fn send_resumption_ticket(&self) -> (answer: Result<(), ConnectionError>)
        requires
            self.well_formed(),
        ensures
            answer == match self@.gate() {
                Gate::NotStarted | Gate::Starting => Err::<(), ConnectionError>(
                    ConnectionError::ConnectionNotStarted,
                ),
                Gate::Open => Ok(()),
                Gate::Lost(error) => Err(error),
            },
    {
        match self.gate() {
            Gate::NotStarted | Gate::Starting => Err(ConnectionError::ConnectionNotStarted),
            Gate::Open => Ok(()),
            Gate::Lost(error) => Err(error),
        }
    }

    /// Queue `event` and hand out the wakers of those who wait for one.
    fn queue_event(&mut self, event: ConnectionEvent) -> (woken: Vec<Waker>)
        requires
            old(self).well_formed(),
            !(event is DatagramStateChanged),
        ensures
            final(self).well_formed(),
            final(self)@ == old(self)@.queued(event@),
            woken@ == old(self)@.event_waiters,
    {
        self.events.push_back(event);
        assert(self@.events =~= old(self)@.events.push(event@));
        drain_wakers(&mut self.event_waiters)
    }

    fn handle_event_connected(&mut self, secrets: &TlsSecrets) -> (outcome: (
        Vec<Waker>,
        Option<KeyLog<F>>,
    ))
        requires
            old(self).well_formed(),
        ensures
            final(self).well_formed(),
            final(self)@ == old(self)@.after_event(NativeEvent::Connected { secrets }),
            outcome.0@ == old(self)@.start_waiters,
            match (old(self)@.tls_secrets, old(self)@.sslkeylog_file) {
                (Some(_), Some(file)) => {
                    &&& outcome.1 matches Some(log)
                    &&& log.file == file
                    &&& texts_of(log.lines@) == secrets.key_log()
                },
                _ => outcome.1 is None,
            },
    {
        let mut key_log: Option<KeyLog<F>> = None;
        match (self.tls_secrets.take(), self.sslkeylog_file.take()) {
            (Some(tls_secrets), Some(file)) => {
                key_log = Some(KeyLog { file, lines: secrets.key_log_lines() });
                self.tls_secrets = Some(tls_secrets);
            },
            _ => {},
        }
        self.state = ConnectionState::Connected;
        (drain_wakers(&mut self.start_waiters), key_log)
    }

    /// The connection is going away because of `error`.
    fn handle_event_shutdown_initiated(&mut self, error: ConnectionError) -> (woken: Vec<Waker>)
        requires
            old(self).well_formed(),
        ensures
            final(self).well_formed(),
            final(self)@ == (ConnectionView {
                start_waiters: Seq::empty(),
                inbound_stream_waiters: Seq::empty(),
                recv_waiters: Seq::empty(),
                ..old(self)@.shut_down(error)
            }),
            woken@ == old(self)@.start_waiters + old(self)@.inbound_stream_waiters
                + old(self)@.recv_waiters,
    {
        self.state = ConnectionState::Shutdown;
        self.error = Some(error);
        let mut woken = drain_wakers(&mut self.start_waiters);
        woken.append(&mut self.inbound_stream_waiters);
        woken.append(&mut self.recv_waiters);
        woken
    }

    fn handle_event_shutdown_complete(&mut self) -> (woken: Vec<Waker>)
        requires
            old(self).well_formed(),
        ensures
            final(self).well_formed(),
            final(self)@ == old(self)@.after_event(NativeEvent::ShutdownComplete),
            woken@ == old(self)@.woken_by(NativeEvent::ShutdownComplete),
    {
        self.state = ConnectionState::ShutdownComplete;
        if self.error.is_none() {
            self.error = Some(ConnectionError::ShutdownByLocal);
        }
        let mut woken = drain_wakers(&mut self.start_waiters);
        woken.append(&mut self.inbound_stream_waiters);
        woken.append(&mut self.recv_waiters);
        woken.append(&mut self.shutdown_waiters);
        woken.append(&mut self.event_waiters);
        woken
    }

    fn handle_event_datagram_state_changed(
        &mut self,
        send_enabled: bool,
        max_send_length: u16,
    ) -> (woken: Vec<Waker>)
        requires
            old(self).well_formed(),
        ensures
            final(self).well_formed(),
            final(self)@ == old(self)@.after_event(
                NativeEvent::DatagramStateChanged { send_enabled, max_send_length },
            ),
            woken@ == old(self)@.event_waiters,
    {
        self.dgram_send_enabled = send_enabled;
        self.dgram_max_send_length = max_send_length;
        let event = ConnectionEvent::DatagramStateChanged { send_enabled, max_send_length };
        let ghost before = self@.events;
        let mut i: usize = 0;
        while i < self.events.len() && !matches!(
            self.events[i],
            ConnectionEvent::DatagramStateChanged { .. }
        )
            invariant
                i <= self.events@.len(),
                before == events_of(self.events@),
                forall|j: int| 0 <= j < i ==> !(#[trigger] before[j] is DatagramStateChanged),
            decreases self.events@.len() - i,
        {
            i += 1;
        }
        proof {
            coalesced_at(before, event@, i as int);
        }
        if i < self.events.len() {
            let _ = self.events.remove(i);
            self.events.insert(i, event);
            assert(self@.events =~= before.update(i as int, event@));
        } else {
            self.events.push_back(event);
            assert(self@.events =~= before.push(event@));
        }
        drain_wakers(&mut self.event_waiters)
    }

    fn handle_event_datagram_received(&mut self, buffer: &[u8]) -> (woken: Vec<Waker>)
        requires
            old(self).well_formed(),
        ensures
            final(self).well_formed(),
            final(self)@ == old(self)@.after_event(NativeEvent::DatagramReceived { buffer }),
            woken@ == old(self)@.recv_waiters,
    {
        self.recv_buffers.push_back(Bytes::copy_from_slice(buffer));
        assert(self@.recv_buffers =~= old(self)@.recv_buffers.push(buffer@));
        drain_wakers(&mut self.recv_waiters)
    }

    /// Queue one of the three path events, which carry the same addresses and differ only in what
    /// they say about the path.
    fn handle_event_path(
        &mut self,
        local_address: Option<Address>,
        peer_address: Option<Address>,
        path: PathChange,
    ) -> (woken: Vec<Waker>)
        requires
            old(self).well_formed(),
        ensures
            final(self).well_formed(),
            final(self)@ == old(self)@.queued_if(
                local_address is Some && peer_address is Some,
                path.event(local_address->0, peer_address->0),
            ),
            woken@ == old(self)@.event_waiters_if(local_address is Some && peer_address is Some),
    {
        match (local_address, peer_address) {
            (Some(local_address), Some(peer_address)) => {
                let event = match path {
                    PathChange::Added { path_id } => ConnectionEvent::PathAdded {
                        local_address,
                        peer_address,
                        path_id,
                    },
                    PathChange::Removed { path_id } => ConnectionEvent::PathRemoved {
                        local_address,
                        peer_address,
                        path_id,
                    },
                    PathChange::Status { path_id, is_active } => {
                        ConnectionEvent::PathStatusChanged {
                            local_address,
                            peer_address,
                            path_id,
                            is_active,
                        }
                    },
                };
                self.queue_event(event)
            },
            _ => Vec::new(),
        }
    }

    /// The peer opened a stream. A unidirectional one is queued as its reading half.
    fn handle_event_peer_stream_started(&mut self, stream: S, unidirectional: bool) -> (outcome: (
        Result<(), EventFailure>,
        Vec<Waker>,
    )) where S: Clone
        requires
            old(self).well_formed(),
        ensures
            final(self).well_formed(),
            final(self)@ == old(self)@.after_event(
                NativeEvent::PeerStreamStarted { stream, unidirectional },
            ),
            outcome.0 == Ok::<(), EventFailure>(()),
            outcome.1@ == old(self)@.woken_by(
                NativeEvent::PeerStreamStarted { stream, unidirectional },
            ),
    {
        if unidirectional {
            match split_handle(StreamType::Unidirectional, false, stream) {
                (Some(read_stream), None) => {
                    self.inbound_uni_streams.push_back(read_stream);
                    (Ok(()), drain_wakers(&mut self.inbound_uni_stream_waiters))
                },
                _ => (Err(EventFailure::InternalError), Vec::new()),
            }
        } else {
            self.inbound_streams.push_back(stream);
            (Ok(()), drain_wakers(&mut self.inbound_stream_waiters))
        }
    }

    /// MsQuic is done with the buffer of a datagram: keep it for a later one.
    fn handle_event_datagram_send_state_changed(&mut self, buffer: Option<WriteBuffer>)
        requires
            old(self).well_formed(),
        ensures
            final(self).well_formed(),
            final(self)@ == (ConnectionView {
                write_pool: if buffer is Some {
                    old(self)@.write_pool + 1
                } else {
                    old(self)@.write_pool
                },
                ..old(self)@
            }),
    {
        if let Some(buffer) = buffer {
            let mut buffer = buffer;
            buffer.reset();
            self.write_pool.push(buffer);
        }
    }

    /// Take an event in. Wake the wakers that come back, write the log lines, and answer MsQuic
    /// with the result.
    pub fn dispatch_event(&mut self, event: NativeEvent<'_, S>) -> (reply: ConnectionReply<
        F,
    >) where S: Clone
        requires
            old(self).well_formed(),
            event matches NativeEvent::DatagramSendStateChanged { state, returned } ==> (
            returned is Some <==> state.returns_buffer_spec()),
        ensures
            final(self).well_formed(),
            final(self)@ == old(self)@.after_event(event),
            reply.result == ConnectionView::<S, T, F>::answer_to(event),
            reply.woken@ == old(self)@.woken_by(event),
            match old(self)@.logged_by(event) {
                Some(logged) => {
                    &&& reply.key_log matches Some(log)
                    &&& log.file == logged.0
                    &&& texts_of(log.lines@) == logged.1
                },
                None => reply.key_log is None,
            },
    {
        let mut result: Result<(), EventFailure> = Ok(());
        let mut key_log: Option<KeyLog<F>> = None;
        let woken: Vec<Waker> = match event {
            NativeEvent::PeerCertificateReceived { verdict } => {
                if let Some(Err(status)) = verdict {
                    result = Err(EventFailure::Rejected(status));
                }
                Vec::new()
            },
            NativeEvent::Connected { secrets } => {
                let (woken, log) = self.handle_event_connected(secrets);
                key_log = log;
                woken
            },
            NativeEvent::ShutdownInitiatedByTransport { status, error_code } => {
                self.handle_event_shutdown_initiated(
                    ConnectionError::ShutdownByTransport(status, error_code),
                )
            },
            NativeEvent::ShutdownInitiatedByPeer { error_code } => {
                self.handle_event_shutdown_initiated(ConnectionError::ShutdownByPeer(error_code))
            },
            NativeEvent::ShutdownComplete => self.handle_event_shutdown_complete(),
            NativeEvent::PeerStreamStarted { stream, unidirectional } => {
                let (started, woken) = self.handle_event_peer_stream_started(
                    stream,
                    unidirectional,
                );
                result = started;
                woken
            },
            NativeEvent::StreamsAvailable => Vec::new(),
            NativeEvent::DatagramStateChanged { send_enabled, max_send_length } => {
                self.handle_event_datagram_state_changed(send_enabled, max_send_length)
            },
            NativeEvent::DatagramReceived { buffer } => {
                self.handle_event_datagram_received(buffer)
            },
            NativeEvent::DatagramSendStateChanged { state: _, returned } => {
                self.handle_event_datagram_send_state_changed(returned);
                Vec::new()
            },
            NativeEvent::ResumptionTicketReceived { resumption_ticket } => {
                let mut copy: Vec<u8> = Vec::new();
                copy.extend_from_slice(resumption_ticket);
                assert(copy@ =~= resumption_ticket@);
                self.queue_event(
                    ConnectionEvent::ResumptionTicketReceived { resumption_ticket: copy },
                )
            },
            NativeEvent::NotifyObservedAddress { local_address, observed_address } => {
                match (local_address, observed_address) {
                    (Some(local_address), Some(observed_address)) => self.queue_event(
                        ConnectionEvent::NotifyObservedAddress { local_address, observed_address },
                    ),
                    _ => Vec::new(),
                }
            },
            NativeEvent::NotifyRemoteAddressAdded { address, sequence_number } => {
                match address {
                    Some(address) => self.queue_event(
                        ConnectionEvent::NotifyRemoteAddressAdded { address, sequence_number },
                    ),
                    None => Vec::new(),
                }
            },
            NativeEvent::PathValidated { local_address, remote_address } => {
                match (local_address, remote_address) {
                    (Some(local_address), Some(remote_address)) => self.queue_event(
                        ConnectionEvent::PathValidated { local_address, remote_address },
                    ),
                    _ => Vec::new(),
                }
            },
            NativeEvent::NotifyRemoteAddressRemoved { sequence_number } => {
                self.queue_event(ConnectionEvent::NotifyRemoteAddressRemoved { sequence_number })
            },
            NativeEvent::PathAdded { local_address, peer_address, path_id } => {
                self.handle_event_path(local_address, peer_address, PathChange::Added { path_id })
            },
            NativeEvent::PathRemoved { local_address, peer_address, path_id } => {
                self.handle_event_path(
                    local_address,
                    peer_address,
                    PathChange::Removed { path_id },
                )
            },
            NativeEvent::PathStatusChanged { local_address, peer_address, path_id, is_active } => {
                self.handle_event_path(
                    local_address,
                    peer_address,
                    PathChange::Status { path_id, is_active },
                )
            },
            NativeEvent::Other => Vec::new(),
        };
        ConnectionReply { result, woken, key_log }
    }
}

/// The next step of opening a stream.
#[derive(Clone, Copy, Debug, PartialEq, Eq, Structural)]
pub enum OpenStep {
    /// Wait for the connection to start.
    Wait,
    /// The stream cannot be opened.
    Fail(StreamStartError),
    /// Open a native stream, and hand it to [`OpenOutboundStream::opened`].
    Open(StreamType),
    /// Start the stream that was opened.
    Start,
}

/// Future produced by opening an outbound stream.
pub struct OpenOutboundStream<S> {
    pub stream_type: Option<StreamType>,
    pub stream: Option<S>,
    pub fail_on_blocked: bool,
}

impl<S> OpenOutboundStream<S> {
    /// Open a stream of the given type. With `fail_on_blocked` that fails where the peer's stream
    /// limit is reached, in place of waiting.
    pub fn new(stream_type: StreamType, fail_on_blocked: bool) -> (open: Self)
        ensures
            open.stream_type == Some(stream_type),
            open.stream is None,
            open.fail_on_blocked == fail_on_blocked,
    {
        OpenOutboundStream { stream_type: Some(stream_type), stream: None, fail_on_blocked }
    }

    /// The stream is still to be opened, or is being started.
    pub open spec fn live(&self) -> bool {
        self.stream is Some || self.stream_type is Some
    }

    /// Whether the stream is still to be opened, or is being started.
    pub fn is_live(&self) -> (live: bool)
        ensures
            live == self.live(),
    {
        self.stream.is_some() || self.stream_type.is_some()
    }

    /// The next step, where a user of the connection finds `gate`: once the connection is up, a
    /// stream is opened, and then started.
    pub open spec fn step(self, gate: Gate) -> OpenStep {
        match gate {
            Gate::NotStarted => OpenStep::Fail(StreamStartError::ConnectionNotStarted),
            Gate::Starting => OpenStep::Wait,
            Gate::Open => if self.stream is Some {
                OpenStep::Start
            } else {
                OpenStep::Open(self.stream_type->0)
            },
            Gate::Lost(error) => OpenStep::Fail(StreamStartError::ConnectionLost(error)),
        }
    }

    /// The step was taken. A stream is opened once.
    pub open spec fn stepped(self, gate: Gate) -> Self {
        if self.step(gate) is Open {
            OpenOutboundStream { stream_type: None, ..self }
        } else {
            self
        }
    }

    /// The stream is there, where opening it came to one.
    pub open spec fn with_opened(self, opened: Result<S, StreamStartError>) -> Self {
        match opened {
            Ok(stream) => OpenOutboundStream { stream: Some(stream), ..self },
            Err(_) => self,
        }
    }

    /// The stream was handed out, where it is started.
    pub open spec fn with_started(self, started: Poll<Result<(), StreamStartError>>) -> Self {
        match started {
            Poll::Ready(Ok(())) => OpenOutboundStream { stream: None, ..self },
            _ => self,
        }
    }

    /// What comes of starting the stream: the stream, once it is started.
    pub open spec fn start_answer(self, started: Poll<Result<(), StreamStartError>>) -> Poll<
        Result<S, StreamStartError>,
    > {
        match started {
            Poll::Ready(Ok(())) => Poll::Ready(Ok(self.stream->0)),
            Poll::Ready(Err(error)) => Poll::Ready(Err(error)),
            Poll::Pending => Poll::Pending,
        }
    }

    /// What to do next.
    pub fn poll_step<T, F>(
        &mut self,
        connection: &mut Connection<S, T, F>,
        cx: &Context<'_>,
    ) -> (step: OpenStep)
        requires
            old(connection).well_formed(),
            old(connection)@.gate() == Gate::Open ==> old(self).live(),
        ensures
            final(connection).well_formed(),
            step == old(self).step(old(connection)@.gate()),
            *final(self) == old(self).stepped(old(connection)@.gate()),
            if old(connection)@.gate() == Gate::Starting {
                waited_for_start(old(connection)@, *cx, final(connection)@)
            } else {
                final(connection)@ == old(connection)@
            },
    {
        match connection.gate() {
            Gate::NotStarted => {
                return OpenStep::Fail(StreamStartError::ConnectionNotStarted);
            },
            Gate::Starting => {
                register_waker(&mut connection.start_waiters, cx);
                return OpenStep::Wait;
            },
            Gate::Open => {},
            Gate::Lost(error) => {
                return OpenStep::Fail(StreamStartError::ConnectionLost(error));
            },
        }
        if self.stream.is_some() {
            OpenStep::Start
        } else {
            OpenStep::Open(self.stream_type.take().unwrap())
        }
    }

    /// Take in what came of opening the native stream. An error ends the future; otherwise the
    /// stream is to be started.
    pub fn opened(&mut self, opened: Result<S, StreamStartError>) -> (failed: Option<
        StreamStartError,
    >)
        ensures
            failed == match opened {
                Ok(_) => None,
                Err(error) => Some(error),
            },
            *final(self) == old(self).with_opened(opened),
    {
        match opened {
            Ok(stream) => {
                self.stream = Some(stream);
                None
            },
            Err(error) => Some(error),
        }
    }

    /// Take in what came of starting the stream. Once it is started, it is handed out.
    pub fn started(&mut self, started: Poll<Result<(), StreamStartError>>) -> (answer: Poll<
        Result<S, StreamStartError>,
    >)
        requires
            old(self).stream is Some,
        ensures
            answer == old(self).start_answer(started),
            *final(self) == old(self).with_started(started),
    {
        match started {
            Poll::Ready(Ok(())) => Poll::Ready(Ok(self.stream.take().unwrap())),
            Poll::Ready(Err(error)) => Poll::Ready(Err(error)),
            Poll::Pending => Poll::Pending,
        }
    }
}

/// What a poll of an [`OpenOutboundStream`] meets: what a user of the connection finds, and what
/// comes of opening a native stream and of starting it, where the poll does that.
#[verifier::reject_recursive_types(S)]
pub struct OpenPoll<S> {
    pub gate: Gate,
    pub opened: Result<S, StreamStartError>,
    pub started: Poll<Result<(), StreamStartError>>,
}

impl<S> OpenOutboundStream<S> {
    /// The native stream that a poll opens.
    pub open spec fn opens(self, poll: OpenPoll<S>) -> Option<StreamType> {
        match self.step(poll.gate) {
            OpenStep::Open(stream_type) => Some(stream_type),
            _ => None,
        }
    }

    /// The first step of a poll was taken, and where that opened a stream, it was taken in.
    pub open spec fn past_opening(self, poll: OpenPoll<S>) -> Self {
        if self.opens(poll) is Some {
            self.stepped(poll.gate).with_opened(poll.opened)
        } else {
            self.stepped(poll.gate)
        }
    }

    /// The stream that a poll starts, and whether that is to fail where the peer's stream limit is
    /// reached.
    pub open spec fn starts(self, poll: OpenPoll<S>) -> Option<(S, bool)> {
        let open = self.past_opening(poll);
        if open.step(poll.gate) is Start {
            Some((open.stream->0, open.fail_on_blocked))
        } else {
            None
        }
    }

    /// The answer of a poll.
    pub open spec fn poll_answer(self, poll: OpenPoll<S>) -> Poll<Result<S, StreamStartError>> {
        match self.step(poll.gate) {
            OpenStep::Wait => Poll::Pending,
            OpenStep::Fail(error) => Poll::Ready(Err(error)),
            OpenStep::Open(_) => match poll.opened {
                Ok(_) => self.past_opening(poll).start_answer(poll.started),
                Err(error) => Poll::Ready(Err(error)),
            },
            OpenStep::Start => self.start_answer(poll.started),
        }
    }

    /// The poll is over.
    pub open spec fn polled(self, poll: OpenPoll<S>) -> Self {
        if self.starts(poll) is Some {
            self.past_opening(poll).with_started(poll.started)
        } else {
            self.past_opening(poll)
        }
    }

    /// The first `count` of `polls` are over.
    pub open spec fn after_polls(self, polls: Seq<OpenPoll<S>>, count: nat) -> Self
        decreases count,
    {
        if count == 0 {
            self
        } else {
            self.after_polls(polls, (count - 1) as nat).polled(polls[count - 1])
        }
    }

    /// The native stream that poll number `i` opens.
    pub open spec fn opens_at(self, polls: Seq<OpenPoll<S>>, i: int) -> Option<StreamType> {
        self.after_polls(polls, i as nat).opens(polls[i])
    }

    /// The stream that poll number `i` starts, and how.
    pub open spec fn starts_at(self, polls: Seq<OpenPoll<S>>, i: int) -> Option<(S, bool)> {
        self.after_polls(polls, i as nat).starts(polls[i])
    }

    /// The answer of poll number `i`.
    pub open spec fn answer_at(self, polls: Seq<OpenPoll<S>>, i: int) -> Poll<
        Result<S, StreamStartError>,
    > {
        self.after_polls(polls, i as nat).poll_answer(polls[i])
    }

    /// `stream` is what one of the first `count` polls opened.
    pub open spec fn opened_by(self, polls: Seq<OpenPoll<S>>, count: int, stream: S) -> bool {
        exists|i: int|
            0 <= i < count && #[trigger] self.opens_at(polls, i) is Some && polls[i].opened == Ok::<
                S,
                StreamStartError,
            >(stream)
    }
}

/// As long as a stream is waited for, either none was opened and the future is as it was, or one
/// was, and the future holds it.
proof fn one_stream_so_far<S>(
    open: OpenOutboundStream<S>,
    stream_type: StreamType,
    polls: Seq<OpenPoll<S>>,
    count: nat,
)
    requires
        open.stream_type == Some(stream_type),
        open.stream is None,
        count <= polls.len(),
        forall|i: int| 0 <= i < count ==> #[trigger] open.answer_at(polls, i) is Pending,
    ensures
        ({
            let now = open.after_polls(polls, count);
            &&& now.fail_on_blocked == open.fail_on_blocked
            &&& forall|i: int|
                0 <= i < count && #[trigger] open.opens_at(polls, i) is Some ==> open.opens_at(
                    polls,
                    i,
                ) == Some(stream_type) && polls[i].gate == Gate::Open
            &&& if now.stream is None {
                &&& now == open
                &&& forall|i: int| 0 <= i < count ==> #[trigger] open.opens_at(polls, i) is None
            } else {
                &&& now.stream_type is None
                &&& open.opened_by(polls, count as int, now.stream->0)
                &&& forall|i: int, j: int|
                    0 <= i < j < count ==> !(#[trigger] open.opens_at(polls, i) is Some
                        && #[trigger] open.opens_at(polls, j) is Some)
            }
        }),
    decreases count,
{
    if count > 0 {
        let last = (count - 1) as nat;
        one_stream_so_far(open, stream_type, polls, last);
        let before = open.after_polls(polls, last);
        assert(open.answer_at(polls, last as int) is Pending);
        if before.stream is Some {
            let i = choose|i: int|
                0 <= i < last && #[trigger] open.opens_at(polls, i) is Some && polls[i].opened
                    == Ok::<S, StreamStartError>(before.stream->0);
            assert(open.opens_at(polls, last as int) is None);
            assert(open.opens_at(polls, i) is Some);
        } else if polls[last as int].gate == Gate::Open {
            assert(open.opens_at(polls, last as int) == Some(stream_type));
        }
    }
}

/// A future that opens a stream, polled until it is ready, opens one native stream at most, of the
/// type that was asked for and only while the connection is up. What it starts, with the limit
/// treated as was asked for, and what it hands out is that very stream. The future fails where the
/// connection was not started, waits while it is starting, and tells why once it is lost.
pub proof fn one_stream_is_opened<S>(
    open: OpenOutboundStream<S>,
    stream_type: StreamType,
    polls: Seq<OpenPoll<S>>,
)
    requires
        open.stream_type == Some(stream_type),
        open.stream is None,
        forall|i: int| 0 <= i < polls.len() - 1 ==> #[trigger] open.answer_at(polls, i) is Pending,
    ensures
        forall|i: int|
            0 <= i < polls.len() ==> (#[trigger] open.after_polls(polls, i as nat)).live(),
        forall|i: int|
            0 <= i < polls.len() && #[trigger] open.opens_at(polls, i) is Some ==> open.opens_at(
                polls,
                i,
            ) == Some(stream_type) && polls[i].gate == Gate::Open,
        forall|i: int, j: int|
            0 <= i < j < polls.len() ==> !(#[trigger] open.opens_at(polls, i) is Some
                && #[trigger] open.opens_at(polls, j) is Some),
        forall|i: int|
            0 <= i < polls.len() ==> (#[trigger] open.starts_at(polls, i) matches Some(
                started,
            ) ==> started.1 == open.fail_on_blocked && open.opened_by(polls, i + 1, started.0)),
        forall|i: int|
            0 <= i < polls.len() ==> (#[trigger] open.answer_at(polls, i) matches Poll::Ready(
                Ok(stream),
            ) ==> open.opened_by(polls, i + 1, stream)),
        forall|i: int|
            0 <= i < polls.len() ==> match polls[i].gate {
                Gate::NotStarted => #[trigger] open.answer_at(polls, i) == Poll::<
                    Result<S, StreamStartError>,
                >::Ready(Err(StreamStartError::ConnectionNotStarted)),
                Gate::Starting => open.answer_at(polls, i) is Pending,
                Gate::Open => true,
                Gate::Lost(error) => open.answer_at(polls, i) == Poll::<
                    Result<S, StreamStartError>,
                >::Ready(Err(StreamStartError::ConnectionLost(error))),
            },
{
    assert forall|i: int| 0 <= i < polls.len() implies (#[trigger] open.after_polls(
        polls,
        i as nat,
    )).live() by {
        one_stream_so_far(open, stream_type, polls, i as nat);
    }
    assert forall|i: int|
        0 <= i < polls.len() && #[trigger] open.opens_at(polls, i) is Some implies open.opens_at(
        polls,
        i,
    ) == Some(stream_type) && polls[i].gate == Gate::Open by {
        one_stream_so_far(open, stream_type, polls, i as nat);
    }
    assert forall|i: int, j: int| 0 <= i < j < polls.len() implies !(#[trigger] open.opens_at(
        polls,
        i,
    ) is Some && #[trigger] open.opens_at(polls, j) is Some) by {
        one_stream_so_far(open, stream_type, polls, j as nat);
    }
    assert forall|i: int| 0 <= i < polls.len() implies (#[trigger] open.starts_at(
        polls,
        i,
    ) matches Some(started) ==> started.1 == open.fail_on_blocked && open.opened_by(
        polls,
        i + 1,
        started.0,
    )) by {
        started_stream_was_opened(open, stream_type, polls, i);
    }
    assert forall|i: int| 0 <= i < polls.len() implies (#[trigger] open.answer_at(
        polls,
        i,
    ) matches Poll::Ready(Ok(stream)) ==> open.opened_by(polls, i + 1, stream)) by {
        started_stream_was_opened(open, stream_type, polls, i);
    }
}

/// What poll number `i` starts was opened by then, and what it hands out is what it starts.
proof fn started_stream_was_opened<S>(
    open: OpenOutboundStream<S>,
    stream_type: StreamType,
    polls: Seq<OpenPoll<S>>,
    i: int,
)
    requires
        open.stream_type == Some(stream_type),
        open.stream is None,
        0 <= i < polls.len(),
        forall|j: int| 0 <= j < i ==> #[trigger] open.answer_at(polls, j) is Pending,
    ensures
        open.starts_at(polls, i) matches Some(started) ==> started.1 == open.fail_on_blocked
            && open.opened_by(polls, i + 1, started.0),
        open.answer_at(polls, i) matches Poll::Ready(Ok(stream)) ==> open.starts_at(polls, i)
            == Some((stream, open.fail_on_blocked)),
{
    one_stream_so_far(open, stream_type, polls, i as nat);
    let before = open.after_polls(polls, i as nat);
    if open.starts_at(polls, i) is Some {
        if before.stream is Some {
            let k = choose|k: int|
                0 <= k < i && #[trigger] open.opens_at(polls, k) is Some && polls[k].opened
                    == Ok::<S, StreamStartError>(before.stream->0);
            assert(open.opens_at(polls, k) is Some);
        } else {
            assert(open.opens_at(polls, i) is Some);
        }
    }
}

/// How many entries the first query for path statistics has room for: as many as there are paths
/// at most, so that it normally is the only one.
pub const PATH_STATISTICS_INITIAL_ENTRIES: usize = 4;

/// How often path statistics are queried. Bounded because growing is for a path appearing between
/// two queries, not for a connection that keeps adding them.
pub const PATH_STATISTICS_ATTEMPTS: usize = 4;

/// What came of a query for path statistics.
#[derive(Clone, Copy, Debug, PartialEq, Eq, Structural)]
pub enum PathStatisticsStep {
    /// So many entries were filled in.
    Done(usize),
    /// Query again, with a buffer of the new size.
    Retry,
    /// The statistics cannot be had.
    Fail(ConnectionError),
}

/// A query for path statistics that grows its buffer until MsQuic has room enough.
pub struct PathStatisticsQuery {
    entry_size: usize,
    entries: usize,
    attempts: usize,
}

impl PathStatisticsQuery {
    /// How many bytes an entry has.
    pub closed spec fn entry_size(&self) -> nat {
        self.entry_size as nat
    }

    /// How many entries there is room for.
    pub closed spec fn entries(&self) -> nat {
        self.entries as nat
    }

    /// How many queries are left.
    pub closed spec fn attempts(&self) -> nat {
        self.attempts as nat
    }

    /// The buffer has a size that MsQuic can be told.
    pub open spec fn well_formed(&self) -> bool {
        &&& self.entry_size() > 0
        &&& self.entries() * self.entry_size() <= u32::MAX
    }

    /// A query for entries of `entry_size` bytes.
    pub fn new(entry_size: usize) -> (query: Self)
        requires
            0 < entry_size,
            PATH_STATISTICS_INITIAL_ENTRIES * entry_size <= u32::MAX,
        ensures
            query.well_formed(),
            query.entry_size() == entry_size,
            query.entries() == PATH_STATISTICS_INITIAL_ENTRIES,
            query.attempts() == PATH_STATISTICS_ATTEMPTS,
    {
        PathStatisticsQuery {
            entry_size,
            entries: PATH_STATISTICS_INITIAL_ENTRIES,
            attempts: PATH_STATISTICS_ATTEMPTS,
        }
    }

    /// How many entries to make room for.
    pub fn room(&self) -> (entries: usize)
        ensures
            entries == self.entries(),
    {
        self.entries
    }

    /// How many bytes that is.
    pub fn capacity_bytes(&self) -> (bytes: u32)
        requires
            self.well_formed(),
        ensures
            bytes == self.entries() * self.entry_size(),
    {
        assert(self.entries * self.entry_size <= u32::MAX) by (nonlinear_arith)
            requires
                self.entries as nat * self.entry_size as nat <= u32::MAX,
        ;
        (self.entries * self.entry_size) as u32
    }

    /// Take in what came of a query: its result, and the number of bytes that MsQuic wrote, or
    /// asks for where that is more than there was room for.
    pub fn answered(&mut self, result: Result<(), Status>, length: u32) -> (step:
        PathStatisticsStep)
        requires
            old(self).well_formed(),
            old(self).attempts() > 0,
        ensures
            final(self).well_formed(),
            final(self).entry_size() == old(self).entry_size(),
            final(self).attempts() == old(self).attempts() - 1,
            ({
                let capacity = old(self).entries() * old(self).entry_size();
                match result {
                    Ok(()) => {
                        &&& step == PathStatisticsStep::Done(
                            ((if length < capacity {
                                length as nat
                            } else {
                                capacity
                            }) / old(self).entry_size()) as usize,
                        )
                        &&& final(self).entries() == old(self).entries()
                    },
                    Err(status) => if length > capacity {
                        &&& final(self).entries() == length as nat / old(self).entry_size()
                        &&& step == if old(self).attempts() > 1 {
                            PathStatisticsStep::Retry
                        } else {
                            PathStatisticsStep::Fail(ConnectionError::OtherError(status))
                        }
                    } else {
                        &&& final(self).entries() == old(self).entries()
                        &&& step == PathStatisticsStep::Fail(ConnectionError::OtherError(status))
                    },
                }
            }),
    {
        let capacity: u32 = self.capacity_bytes();
        self.attempts -= 1;
        match result {
            Ok(()) => {
                let filled: u32 = if length < capacity {
                    length
                } else {
                    capacity
                };
                PathStatisticsStep::Done(filled as usize / self.entry_size)
            },
            Err(status) => {
                if length > capacity {
                    let entries: usize = length as usize / self.entry_size;
                    proof {
                        vstd::arithmetic::div_mod::lemma_fundamental_div_mod(
                            length as int,
                            self.entry_size as int,
                        );
                        vstd::arithmetic::mul::lemma_mul_is_commutative(
                            entries as int,
                            self.entry_size as int,
                        );
                    }
                    self.entries = entries;
                    if self.attempts > 0 {
                        return PathStatisticsStep::Retry;
                    }
                }
                PathStatisticsStep::Fail(ConnectionError::OtherError(status))
            },
        }
    }
}

/// A task that waits for the connection to start is woken by every event that ends that wait.
pub proof fn starters_are_woken<S, T, F>(
    connection: ConnectionView<S, T, F>,
    event: NativeEvent<'_, S>,
)
    requires
        connection.state == ConnectionState::Connecting,
        connection.after_event(event).state != ConnectionState::Connecting,
    ensures
        connection.after_event(event).start_waiters == Seq::<Waker>::empty(),
        connection.start_waiters.is_prefix_of(connection.woken_by(event)),
{
    assert(connection.start_waiters =~= connection.woken_by(event).take(
        connection.start_waiters.len() as int,
    ));
}

/// A task that waits for a bidirectional stream is woken when one arrives, and when the connection
/// goes away.
pub proof fn stream_acceptors_are_woken<S, T, F>(
    connection: ConnectionView<S, T, F>,
    event: NativeEvent<'_, S>,
)
    requires
        connection.gate() == Gate::Open,
        connection.after_event(event).gate() != Gate::Open || connection.after_event(
            event,
        ).inbound_streams != connection.inbound_streams,
    ensures
        connection.after_event(event).inbound_stream_waiters == Seq::<Waker>::empty(),
        forall|i: int|
            0 <= i < connection.inbound_stream_waiters.len() ==> connection.woken_by(
                event,
            ).contains(#[trigger] connection.inbound_stream_waiters[i]),
{
    let woken = connection.woken_by(event);
    let skipped = if event is PeerStreamStarted {
        0
    } else {
        connection.start_waiters.len() as int
    };
    assert forall|i: int| 0 <= i < connection.inbound_stream_waiters.len() implies woken.contains(
        #[trigger] connection.inbound_stream_waiters[i],
    ) by {
        assert(woken[skipped + i] == connection.inbound_stream_waiters[i]);
    }
}

/// A task that waits for a unidirectional stream is woken when one arrives.
pub proof fn uni_stream_acceptors_are_woken<S, T, F>(
    connection: ConnectionView<S, T, F>,
    event: NativeEvent<'_, S>,
)
    requires
        connection.after_event(event).inbound_uni_streams != connection.inbound_uni_streams,
    ensures
        connection.after_event(event).inbound_uni_stream_waiters == Seq::<Waker>::empty(),
        connection.woken_by(event) == connection.inbound_uni_stream_waiters,
{
}

/// A task that waits for a datagram is woken when one arrives, and when the connection goes away.
pub proof fn datagram_receivers_are_woken<S, T, F>(
    connection: ConnectionView<S, T, F>,
    event: NativeEvent<'_, S>,
)
    requires
        connection.gate() == Gate::Open,
        connection.after_event(event).gate() != Gate::Open || connection.after_event(
            event,
        ).recv_buffers != connection.recv_buffers,
    ensures
        connection.after_event(event).recv_waiters == Seq::<Waker>::empty(),
        forall|i: int|
            0 <= i < connection.recv_waiters.len() ==> connection.woken_by(event).contains(
                #[trigger] connection.recv_waiters[i],
            ),
{
    let woken = connection.woken_by(event);
    let skipped = if event is DatagramReceived {
        0
    } else {
        connection.start_waiters.len() + connection.inbound_stream_waiters.len()
    };
    assert forall|i: int| 0 <= i < connection.recv_waiters.len() implies woken.contains(
        #[trigger] connection.recv_waiters[i],
    ) by {
        assert(woken[skipped + i] == connection.recv_waiters[i]);
    }
}

/// A task that waits for an event is woken when one is queued, and when the connection is shut
/// down.
pub proof fn event_receivers_are_woken<S, T, F>(
    connection: ConnectionView<S, T, F>,
    event: NativeEvent<'_, S>,
)
    requires
        connection.state != ConnectionState::ShutdownComplete,
        connection.after_event(event).state == ConnectionState::ShutdownComplete
            || connection.after_event(event).events != connection.events,
    ensures
        connection.after_event(event).event_waiters == Seq::<Waker>::empty(),
        forall|i: int|
            0 <= i < connection.event_waiters.len() ==> connection.woken_by(event).contains(
                #[trigger] connection.event_waiters[i],
            ),
{
    let woken = connection.woken_by(event);
    let skipped = if event is ShutdownComplete {
        connection.start_waiters.len() + connection.inbound_stream_waiters.len()
            + connection.recv_waiters.len() + connection.shutdown_waiters.len()
    } else {
        0
    };
    assert forall|i: int| 0 <= i < connection.event_waiters.len() implies woken.contains(
        #[trigger] connection.event_waiters[i],
    ) by {
        assert(woken[skipped + i] == connection.event_waiters[i]);
    }
}

/// A task that waits for the shutdown is woken once it is complete, and where this side asked for
/// the shutdown, it finds that nothing went wrong.
pub proof fn a_local_shutdown_succeeds<S, T, F>(connection: ConnectionView<S, T, F>)
    requires
        connection.state == ConnectionState::Shutdown,
        connection.error == Some(ConnectionError::ShutdownByLocal),
    ensures
        ({
            let after = connection.after_event(NativeEvent::ShutdownComplete);
            &&& after.state == ConnectionState::ShutdownComplete
            &&& after.error == Some(ConnectionError::ShutdownByLocal)
            &&& after.shutdown_waiters == Seq::<Waker>::empty()
        }),
        forall|i: int|
            0 <= i < connection.shutdown_waiters.len() ==> connection.woken_by(
                NativeEvent::ShutdownComplete,
            ).contains(#[trigger] connection.shutdown_waiters[i]),
{
    let woken = connection.woken_by(NativeEvent::ShutdownComplete);
    let skipped = connection.start_waiters.len() + connection.inbound_stream_waiters.len()
        + connection.recv_waiters.len();
    assert forall|i: int| 0 <= i < connection.shutdown_waiters.len() implies woken.contains(
        #[trigger] connection.shutdown_waiters[i],
    ) by {
        assert(woken[skipped + i] == connection.shutdown_waiters[i]);
    }
}

/// Changes of the datagram state do not pile up in the event queue of an application that never
/// polls it: once one is queued, the queue grows no more by them.
pub proof fn datagram_states_do_not_pile_up(
    events: Seq<EventView>,
    state: EventView,
    next: EventView,
)
    requires
        state is DatagramStateChanged,
    ensures
        coalesced(events, state).len() <= events.len() + 1,
        coalesced(coalesced(events, state), next).len() == coalesced(events, state).len(),
    decreases events.len(),
{
    if events.len() > 0 && !(events[0] is DatagramStateChanged) {
        datagram_states_do_not_pile_up(events.drop_first(), state, next);
        assert(coalesced(events, state).drop_first() =~= coalesced(events.drop_first(), state));
    }
}

/// A change of the datagram state is queued once, with the latest values: it takes the place of an
/// older one that nobody polled yet, or comes last. The other events stay as they are, datagrams
/// are held to the new values, and every task that waits for events is woken.
pub proof fn the_latest_datagram_state_is_queued<S, T, F>(
    connection: ConnectionView<S, T, F>,
    send_enabled: bool,
    max_send_length: u16,
)
    requires
        connection.well_formed(),
    ensures
        ({
            let event = NativeEvent::DatagramStateChanged { send_enabled, max_send_length };
            let state = EventView::DatagramStateChanged { send_enabled, max_send_length };
            let before = connection.events;
            let after = connection.after_event(event);
            &&& after.well_formed()
            &&& one_datagram_state(after.events)
            &&& after.events.contains(state)
            &&& before.len() <= after.events.len()
            &&& forall|i: int|
                0 <= i < before.len() ==> #[trigger] after.events[i] == if before[i]
                    is DatagramStateChanged {
                    state
                } else {
                    before[i]
                }
            &&& (forall|i: int|
                0 <= i < before.len() ==> !(#[trigger] before[i] is DatagramStateChanged))
                ==> after.events == before.push(state)
            &&& (exists|i: int|
                0 <= i < before.len() && #[trigger] before[i] is DatagramStateChanged)
                ==> after.events.len() == before.len()
            &&& after.dgram_send_enabled == send_enabled
            &&& after.dgram_max_send_length == max_send_length
            &&& connection.woken_by(event) == connection.event_waiters
            &&& after.event_waiters == Seq::<Waker>::empty()
        }),
{
    let state = EventView::DatagramStateChanged { send_enabled, max_send_length };
    let before = connection.events;
    if exists|i: int| 0 <= i < before.len() && #[trigger] before[i] is DatagramStateChanged {
        let at = choose|i: int|
            0 <= i < before.len() && #[trigger] before[i] is DatagramStateChanged;
        coalesced_at(before, state, at);
        assert(before.update(at, state)[at] == state);
    } else {
        coalesced_at(before, state, before.len() as int);
        assert(before.push(state)[before.len() as int] == state);
    }
}

/// A datagram that MsQuic does not take costs no buffer: after it, as many are kept for later as
/// before it, or one where there was none.
pub proof fn a_failed_send_leaks_no_buffer<S, T, F>(
    before: ConnectionView<S, T, F>,
    datagram: Seq<u8>,
    buffer: WriteBuffer,
    sending: ConnectionView<S, T, F>,
    after: ConnectionView<S, T, F>,
)
    requires
        datagram_taken(before, datagram, Ok(buffer), sending),
        after == (ConnectionView { write_pool: sending.write_pool + 1, ..sending }),
    ensures
        after == (ConnectionView {
            write_pool: if before.write_pool > 0 {
                before.write_pool
            } else {
                1
            },
            ..before
        }),
{
}

} // verus!
