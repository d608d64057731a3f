//! Wire protocol session management.
//!
//! Framing, transport and the SPARK handshake run in the host; within this
//! core the session operations are placeholders with exactly pinned
//! results, and the opcode constants document the handshake messages.

use vstd::prelude::*;
use crate::crypto::{zero_bytes, zeroed_vec};
use crate::error::PolykitError;
use crate::identity::AppContext;

verus! {

/// SPARK authentication opcodes of the wire protocol.
pub const SPARK_CHALLENGE_REQUEST: u8 = 0x50;

pub const SPARK_CHALLENGE: u8 = 0x51;

pub const SPARK_AUTH_REQUEST: u8 = 0x52;

pub const SPARK_SESSION_GRANT: u8 = 0x53;

/// Wire protocol transport preference.
#[derive(Debug, Clone, Copy, PartialEq, Eq, Structural)]
pub enum Transport {
    /// UDP (primary, full PQ).
    Udp,
    /// WebTransport (browser fallback).
    WebTransport,
}

/// Wire session state.
#[derive(Debug, Clone)]
pub struct WireSession {
    /// Session token from SPARK authentication.
    pub session_token: Vec<u8>,
    /// Active transport.
    pub transport: Transport,
    /// Connected edge node.
    pub edge_node: String,
}

/// Handle for an active stream subscription.
#[derive(Debug, Clone)]
pub struct SubscriptionHandle {
    pub id: u64,
}

/// Perform SPARK authentication. In-core placeholder: a WebTransport
/// session with a zeroed 32-byte token and no edge node.
pub fn authenticate(ctx: &AppContext, signing_key: &[u8], transport: Transport) -> (r: Result<
    WireSession,
    PolykitError,
>)
    ensures
        r matches Ok(s) && s.session_token@.len() == 32 && zero_bytes(s.session_token@)
            && s.transport == Transport::WebTransport && s.edge_node@.len() == 0,
{
    let _ = (ctx, signing_key, transport);
    Ok(WireSession {
        session_token: zeroed_vec(32),
        transport: Transport::WebTransport,
        edge_node: String::new(),
    })
}

/// Subscribe to a lex stream topic. In-core placeholder: handle 0.
pub fn subscribe(session: &WireSession, topic: &str) -> (r: Result<
    SubscriptionHandle,
    PolykitError,
>)
    ensures
        r matches Ok(h) && h.id == 0,
{
    let _ = (session, topic);
    Ok(SubscriptionHandle { id: 0 })
}

/// Emit a message to a lex stream topic. In-core placeholder: accepted.
pub fn emit(session: &WireSession, topic: &str, payload: &[u8]) -> (r: Result<(), PolykitError>)
    ensures
        r is Ok,
{
    let _ = (session, topic, payload);
    Ok(())
}

} // verus!
