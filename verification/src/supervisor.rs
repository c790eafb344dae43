//! The supervisor of one accepted connection: a state machine from state and
//! event to next state and action. The caller performs each action and hands
//! back what happened.
use crate::policy::{protocol_of, Protocol};
use crate::store::CertificateStore;
use rustls::sign::CertifiedKey;
use std::sync::Arc;
use vstd::prelude::*;

verus! {

/// Why a connection ended without being served to completion.
#[derive(Clone, Copy, Debug, PartialEq, Eq, Structural)]
pub enum ConnectionError {
    /// The TLS handshake did not complete: a protocol failure, a client that
    /// named no host, or a host without identity.
    HandshakeFailure,
    /// The HTTP layer failed after a successful handshake.
    DispatchFailure,
}

/// Where a connection stands.
#[derive(Clone, Debug, PartialEq, Eq)]
pub enum ConnectionState {
    /// The raw stream has been handed in.
    Accepted,
    /// The handshake is under way.
    Handshaking,
    /// The handshake succeeded for this hostname and protocol.
    Established { hostname: String, protocol: Option<Protocol> },
    /// The stream is with the HTTP layer.
    Dispatched,
    /// Terminal: the connection's resources are released.
    Closed { error: Option<ConnectionError> },
}

/// What happened to a connection.
#[derive(Clone, Debug, PartialEq, Eq)]
pub enum ConnectionEvent {
    /// The supervisor was started on the accepted stream.
    Started,
    /// The handshake completed; the session reports this server name and
    /// this protocol identifier.
    HandshakeCompleted { server_name: Option<String>, alpn: Option<Vec<u8>> },
    /// The handshake failed.
    HandshakeFailed,
    /// The HTTP layer took the stream.
    HandedOff,
    /// The HTTP layer finished serving.
    ServeCompleted,
    /// The HTTP layer reported an error.
    ServeFailed,
}

/// What the caller is to do next.
#[derive(Clone, Debug, PartialEq, Eq)]
pub enum Action {
    /// Drive the TLS handshake.
    Handshake,
    /// Hand the decrypted stream to the HTTP layer with this hostname and
    /// protocol.
    Dispatch { hostname: String, protocol: Option<Protocol> },
    /// Release the connection.
    Release,
    /// Nothing: the connection is already closed.
    Nothing,
}

/// The protocol that a negotiated identifier stands for.
pub open spec fn negotiated(alpn: Option<Vec<u8>>) -> Option<Protocol> {
    match alpn {
        Some(id) => protocol_of(id@),
        None => None,
    }
}

/// The failure that ends a connection in `state` when an event arrives that
/// does not continue it: a handshake failure up to the handshake, a dispatch
/// failure after it.
pub open spec fn failure_in(state: ConnectionState) -> ConnectionError {
    match state {
        ConnectionState::Accepted | ConnectionState::Handshaking => {
            ConnectionError::HandshakeFailure
        },
        _ => ConnectionError::DispatchFailure,
    }
}

/// The transition relation. A closed connection stays closed and asks for
/// nothing. An open one advances on the event that its state waits for; on
/// any other event, and on a handshake that recovered no server name, it
/// closes with the failure of its phase and is released.
pub open spec fn next(state: ConnectionState, event: ConnectionEvent) -> (
    ConnectionState,
    Action,
) {
    match (state, event) {
        (ConnectionState::Closed { error }, _) => (
            ConnectionState::Closed { error },
            Action::Nothing,
        ),
        (ConnectionState::Accepted, ConnectionEvent::Started) => (
            ConnectionState::Handshaking,
            Action::Handshake,
        ),
        (
            ConnectionState::Handshaking,
            ConnectionEvent::HandshakeCompleted { server_name: Some(hostname), alpn },
        ) => (
            ConnectionState::Established { hostname, protocol: negotiated(alpn) },
            Action::Dispatch { hostname, protocol: negotiated(alpn) },
        ),
        (ConnectionState::Established { .. }, ConnectionEvent::HandedOff) => (
            ConnectionState::Dispatched,
            Action::Nothing,
        ),
        (ConnectionState::Dispatched, ConnectionEvent::ServeCompleted) => (
            ConnectionState::Closed { error: None },
            Action::Release,
        ),
        (open, _) => (ConnectionState::Closed { error: Some(failure_in(open)) }, Action::Release),
    }
}

/// Whether a connection in this state is over.
pub open spec fn is_closed(state: ConnectionState) -> bool {
    state is Closed
}

/// Advances a connection by one event.
pub fn step(state: ConnectionState, event: ConnectionEvent) -> (r: (ConnectionState, Action))
    ensures
        r == next(state, event),
{
    match (state, event) {
        (ConnectionState::Closed { error }, _) => (
            ConnectionState::Closed { error },
            Action::Nothing,
        ),
        (ConnectionState::Accepted, ConnectionEvent::Started) => (
            ConnectionState::Handshaking,
            Action::Handshake,
        ),
        (
            ConnectionState::Handshaking,
            ConnectionEvent::HandshakeCompleted { server_name: Some(hostname), alpn },
        ) => {
            let protocol = match alpn {
                Some(id) => Protocol::from_alpn(id.as_slice()),
                None => None,
            };
            let name = hostname.clone();
            (
                ConnectionState::Established { hostname, protocol },
                Action::Dispatch { hostname: name, protocol },
            )
        },
        (ConnectionState::Established { .. }, ConnectionEvent::HandedOff) => (
            ConnectionState::Dispatched,
            Action::Nothing,
        ),
        (ConnectionState::Dispatched, ConnectionEvent::ServeCompleted) => (
            ConnectionState::Closed { error: None },
            Action::Release,
        ),
        (ConnectionState::Accepted, _) | (ConnectionState::Handshaking, _) => (
            ConnectionState::Closed { error: Some(ConnectionError::HandshakeFailure) },
            Action::Release,
        ),
        (_, _) => (
            ConnectionState::Closed { error: Some(ConnectionError::DispatchFailure) },
            Action::Release,
        ),
    }
}

/// The identity that a handshake proceeds with, or the failure that ends it:
/// the client's server name is resolved in the store, which is only read.
///
/// A client that names no host fails, whatever the store holds; so does one
/// that names a host without identity.
pub fn select_identity(store: &CertificateStore, server_name: Option<&str>) -> (r: Result<
    Arc<CertifiedKey>,
    ConnectionError,
>)
    ensures
        r == match server_name {
            Some(name) if store@.contains_key(name@) => Ok::<Arc<CertifiedKey>, ConnectionError>(
                store@[name@].certified_key,
            ),
            _ => Err(ConnectionError::HandshakeFailure),
        },
{
    match store.resolve(server_name) {
        Some(identity) => Ok(identity),
        None => Err(ConnectionError::HandshakeFailure),
    }
}

/// A closed connection is terminal: no event reopens it, and none asks for
/// further work.
pub proof fn lemma_closed_is_terminal(state: ConnectionState, event: ConnectionEvent)
    requires
        is_closed(state),
    ensures
        next(state, event).0 == state,
        next(state, event).1 == Action::Nothing,
{
}

/// The stream reaches the HTTP layer only out of a handshake that completed
/// with a server name, and then with that name.
pub proof fn lemma_dispatch_follows_handshake(state: ConnectionState, event: ConnectionEvent)
    ensures
        next(state, event).1 is Dispatch <==> state is Handshaking && (event matches ConnectionEvent::HandshakeCompleted {
            server_name: Some(_),
            ..
        }),
        next(state, event).1 matches Action::Dispatch { hostname, .. } ==> event matches ConnectionEvent::HandshakeCompleted {
            server_name: Some(name),
            ..
        } && name == hostname,
{
}

/// Every step that does not continue an open connection closes it: the next
/// state is one step further, or closed.
pub proof fn lemma_failure_closes(state: ConnectionState, event: ConnectionEvent)
    ensures
        next(state, event).1 is Release ==> is_closed(next(state, event).0),
        event is HandshakeFailed && !is_closed(state) ==> is_closed(next(state, event).0),
        state is Handshaking && event is HandshakeFailed ==> next(state, event).0
            == (ConnectionState::Closed { error: Some(ConnectionError::HandshakeFailure) }),
{
}

} // verus!
