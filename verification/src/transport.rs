//! Names shared by both ends of the secure transport channel: the
//! application-protocol identifier and the ways in which setting up a
//! channel can fail.

use vstd::prelude::*;

verus! {

/// Why the producer could not start listening.
#[derive(Clone, Copy, Debug, PartialEq, Eq, Structural)]
pub enum BindError {
    /// Another socket holds the address.
    AddressInUse,
    /// The certificate or the private key could not be used.
    MalformedCredentials,
}

/// Why the consumer could not reach the producer.
#[derive(Clone, Copy, Debug, PartialEq, Eq, Structural)]
pub enum ConnectError {
    /// No route to the producer, or nothing listens there.
    Unreachable,
    /// The peer was reached but the secure session was not established.
    HandshakeFailed,
    /// The caller's time limit ran out first.
    Timeout,
}

/// The step at which the producer failed to start listening.
#[derive(Clone, Copy, Debug, PartialEq, Eq, Structural)]
pub enum ListenFailure {
    /// The certificate could not be read or is no certificate.
    CertificateUnreadable,
    /// The private key could not be read or is no private key.
    PrivateKeyUnreadable,
    /// Certificate and key were read but cannot serve a secure session,
    /// for instance because they do not belong together.
    CredentialsRejected,
    /// The socket could not be bound to the address.
    SocketUnavailable,
}

/// The error that a failure to listen amounts to: whatever is wrong with
/// certificate or key is `MalformedCredentials`, and a socket that cannot
/// be bound means that the address is taken.
pub open spec fn bind_error_of(failure: ListenFailure) -> BindError {
    match failure {
        ListenFailure::SocketUnavailable => BindError::AddressInUse,
        _ => BindError::MalformedCredentials,
    }
}

impl ListenFailure {
    /// The error that this failure amounts to.
    pub fn bind_error(self) -> (error: BindError)
        ensures
            error == bind_error_of(self),
    {
        match self {
            ListenFailure::SocketUnavailable => BindError::AddressInUse,
            _ => BindError::MalformedCredentials,
        }
    }
}

/// How an attempt to reach the producer ended badly, as the transport
/// tells it.
#[derive(Clone, Copy, Debug, PartialEq, Eq, Structural)]
pub enum DialFailure {
    /// The caller's time limit ran out before the session stood.
    TimeLimitReached,
    /// The peer fell silent for longer than the transport tolerates.
    IdleTimeout,
    /// No local socket could be had, or the address cannot be dialed.
    NoRoute,
    /// The peer no longer knows the connection.
    Reset,
    /// The connection was closed on this side before it was established.
    ClosedLocally,
    /// The peer speaks no version of the transport that this side speaks.
    VersionMismatch,
    /// The peer broke the transport's rules, or the secure session could
    /// not be set up: a refused certificate ends here.
    ProtocolViolation,
    /// The peer closed the connection.
    ClosedByPeer,
    /// The session stands but settled on another application protocol.
    WrongProtocol,
}

/// The error that a failed attempt to connect amounts to.
///
/// Running out of time, by the caller's limit or by the transport's own,
/// is a `Timeout`. A peer that cannot be reached or has forgotten the
/// connection is `Unreachable`. Everything that went wrong with a peer that
/// did answer is `HandshakeFailed`.
pub open spec fn connect_error_of(failure: DialFailure) -> ConnectError {
    match failure {
        DialFailure::TimeLimitReached => ConnectError::Timeout,
        DialFailure::IdleTimeout => ConnectError::Timeout,
        DialFailure::NoRoute => ConnectError::Unreachable,
        DialFailure::Reset => ConnectError::Unreachable,
        DialFailure::ClosedLocally => ConnectError::Unreachable,
        DialFailure::VersionMismatch => ConnectError::HandshakeFailed,
        DialFailure::ProtocolViolation => ConnectError::HandshakeFailed,
        DialFailure::ClosedByPeer => ConnectError::HandshakeFailed,
        DialFailure::WrongProtocol => ConnectError::HandshakeFailed,
    }
}

impl DialFailure {
    /// The error that this failure amounts to.
    pub fn connect_error(self) -> (error: ConnectError)
        ensures
            error == connect_error_of(self),
    {
        match self {
            DialFailure::TimeLimitReached => ConnectError::Timeout,
            DialFailure::IdleTimeout => ConnectError::Timeout,
            DialFailure::NoRoute => ConnectError::Unreachable,
            DialFailure::Reset => ConnectError::Unreachable,
            DialFailure::ClosedLocally => ConnectError::Unreachable,
            DialFailure::VersionMismatch => ConnectError::HandshakeFailed,
            DialFailure::ProtocolViolation => ConnectError::HandshakeFailed,
            DialFailure::ClosedByPeer => ConnectError::HandshakeFailed,
            DialFailure::WrongProtocol => ConnectError::HandshakeFailed,
        }
    }
}

/// The bytes of `quinn-tower`, the identifier that both ends present
/// during the handshake.
pub open spec fn protocol_id() -> Seq<u8> {
    seq![113u8, 117, 105, 110, 110, 45, 116, 111, 119, 101, 114]
}

/// The application-protocol identifier to present during the handshake.
pub fn application_protocol() -> (id: Vec<u8>)
    ensures
        id@ == protocol_id(),
{
    let id: Vec<u8> = vec![113u8, 117, 105, 110, 110, 45, 116, 111, 119, 101, 114];
    assert(id@ =~= protocol_id());
    id
}

/// Whether `offered` is this protocol's identifier. A session that settled
/// on anything else carries unrelated traffic and is to be refused.
pub fn is_application_protocol(offered: &[u8]) -> (same: bool)
    ensures
        same == (offered@ == protocol_id()),
{
    let id: Vec<u8> = application_protocol();
    bytes_equal(offered, id.as_slice())
}

/// Whether two byte strings are equal.
pub fn bytes_equal(a: &[u8], b: &[u8]) -> (same: bool)
    ensures
        same == (a@ == b@),
{
    let n: usize = a.len();
    if n != b.len() {
        return false;
    }
    let mut i: usize = 0;
    while i < n
        invariant
            n == a@.len(),
            n == b@.len(),
            i <= n,
            forall|j: int| 0 <= j < i ==> a@[j] == b@[j],
        decreases n - i,
    {
        if a[i] != b[i] {
            return false;
        }
        i += 1;
    }
    assert(a@ =~= b@);
    true
}

} // verus!
