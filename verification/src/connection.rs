//! The client's view of its connection to the server.

use vstd::prelude::*;

use crate::packet::MimicryProfile;

verus! {

/// Where the client stands with the server.
#[derive(Clone, Copy, Debug, PartialEq, Eq, Structural)]
pub enum ConnectionState {
    /// No transport.
    Disconnected,
    /// The transport is being opened.
    Connecting,
    /// The handshake is running.
    Handshaking,
    /// The session is up.
    Connected,
    /// The client is trying to connect again.
    Reconnecting,
}

/// A snapshot of the connection: its state, the session once one exists,
/// the profile in use, and how often reconnection was tried.
#[derive(Clone, Copy, Debug, PartialEq, Eq, Structural)]
pub struct ConnectionInfo {
    /// Where the client stands.
    pub state: ConnectionState,
    /// The session id, once the server assigned one.
    pub session_id: Option<u64>,
    /// The mimicry profile in use.
    pub mimicry_profile: MimicryProfile,
    /// How many reconnection attempts were made.
    pub reconnect_attempts: u32,
}

impl ConnectionInfo {
    /// A fresh snapshot: disconnected, no session, no attempts.
    pub fn new(mimicry_profile: MimicryProfile) -> (r: ConnectionInfo)
        ensures
            r == (ConnectionInfo {
                state: ConnectionState::Disconnected,
                session_id: None,
                mimicry_profile,
                reconnect_attempts: 0,
            }),
    {
        ConnectionInfo {
            state: ConnectionState::Disconnected,
            session_id: None,
            mimicry_profile,
            reconnect_attempts: 0,
        }
    }

    /// Whether the session is up.
    pub fn is_connected(&self) -> (r: bool)
        ensures
            r == (self.state == ConnectionState::Connected),
    {
        matches!(self.state, ConnectionState::Connected)
    }
}

} // verus!
