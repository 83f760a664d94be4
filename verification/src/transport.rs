use vstd::prelude::*;

use crate::errors::KeyringError;

verus! {

/// A handle to an open transport connection. The QUIC transport is an
/// external collaborator with no implementation at this layer, so no
/// operation ever produces one: the type only fixes the call surface.
pub struct ConnectionHandle;

/// A handle to a transport listener, as unproducible as `ConnectionHandle`
/// until the transport is built.
pub struct ListenerHandle;

/// Opening a connection to a host and port reports that the transport is
/// not implemented.
pub fn quic_connect(_host: String, _port: u16) -> (r: Result<ConnectionHandle, KeyringError>)
    ensures
        r is Err && r->Err_0 == KeyringError::NotImplemented,
{
    Err(KeyringError::NotImplemented)
}

/// Sending a payload over a connection reports that the transport is not
/// implemented.
pub fn quic_send(_conn: &ConnectionHandle, _data: &[u8]) -> (r: Result<(), KeyringError>)
    ensures
        r is Err && r->Err_0 == KeyringError::NotImplemented,
{
    Err(KeyringError::NotImplemented)
}

/// Receiving a payload with a timeout reports that the transport is not
/// implemented.
pub fn quic_recv(_conn: &ConnectionHandle, _timeout_ms: u64) -> (r: Result<Vec<u8>, KeyringError>)
    ensures
        r is Err && r->Err_0 == KeyringError::NotImplemented,
{
    Err(KeyringError::NotImplemented)
}

/// Closing a connection reports that the transport is not implemented, like
/// every other transport operation: an unimplemented collaborator never
/// claims success for work it did not do.
pub fn quic_close(_conn: &ConnectionHandle) -> (r: Result<(), KeyringError>)
    ensures
        r is Err && r->Err_0 == KeyringError::NotImplemented,
{
    Err(KeyringError::NotImplemented)
}

/// Listening on a port reports that the transport is not implemented.
pub fn quic_listen(_port: u16) -> (r: Result<ListenerHandle, KeyringError>)
    ensures
        r is Err && r->Err_0 == KeyringError::NotImplemented,
{
    Err(KeyringError::NotImplemented)
}

/// Accepting a connection from a listener reports that the transport is not
/// implemented.
pub fn quic_accept(_listener: &ListenerHandle) -> (r: Result<ConnectionHandle, KeyringError>)
    ensures
        r is Err && r->Err_0 == KeyringError::NotImplemented,
{
    Err(KeyringError::NotImplemented)
}

} // verus!
