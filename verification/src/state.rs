use vstd::prelude::*;

use crate::keys::IdentityKey;

verus! {

/// The fixed protocol stake, in the ledger's value unit: one fifth of a
/// canonical unit of a billion. The requester escrows exactly this much at
/// request time and the acceptor matches it at acceptance.
pub const STAKE_LAMPORTS: u64 = 200_000_000;

/// The longest display name a profile may carry.
pub const MAX_DISPLAY_NAME_LEN: usize = 20;

/// Where a connection stands in its lifecycle.
#[derive(PartialEq, Eq, Structural, Clone, Copy, Debug)]
pub enum ConnectionStatus {
    /// Requested and escrowed by the requester; awaiting the acceptor.
    Pending,
    /// Accepted: both parties have escrowed a stake.
    Connected,
    /// Rejected by the acceptor: the escrow went back to the requester.
    Rejected,
    /// Drained by a connected party: the escrow was split between both.
    Withdrawn,
}

/// One identity's profile: its display name and interaction counters.
/// The counters only ever increase.
#[derive(Clone, Debug)]
pub struct UserInfo {
    /// The owning identity, set once at creation.
    pub identity: IdentityKey,
    /// Short human-readable name, at most `MAX_DISPLAY_NAME_LEN` characters.
    pub display_name: String,
    /// Connection requests this identity has sent.
    pub requests_sent: u32,
    /// Connection requests addressed to this identity. Its value at request
    /// time is frozen into the new connection's address as the sequence.
    pub requests_received: u32,
    /// Requests this identity has answered, by acceptance or rejection.
    pub requests_checked: u32,
    /// Escrows this identity's connections have entered.
    pub staked_count: u32,
    /// Escrows this identity's connections have released.
    pub unstaked_count: u32,
}

/// One connection request: the two parties and the lifecycle status. The
/// escrowed value is held at the record's own storage location and is
/// tracked beside the record, not as a field of it.
#[derive(PartialEq, Eq, Structural, Clone, Copy, Debug)]
pub struct Connection {
    /// The identity that requested the connection, set once.
    pub requester: IdentityKey,
    /// The identity asked to accept, set once.
    pub acceptor: IdentityKey,
    /// Where the connection stands.
    pub status: ConnectionStatus,
}

/// A well-formed profile: the display name stays within its bound.
pub open spec fn user_info_wf(u: UserInfo) -> bool {
    u.display_name@.len() <= MAX_DISPLAY_NAME_LEN
}

/// A well-formed connection: its two parties differ.
pub open spec fn connection_wf(c: Connection) -> bool {
    c.requester != c.acceptor
}

/// The escrow invariant: the value held at a connection record is one
/// stake while pending, two stakes while connected, and nothing once the
/// record has reached a terminal status.
pub open spec fn escrow_consistent(c: Connection, escrow: u64) -> bool {
    match c.status {
        ConnectionStatus::Pending => escrow == STAKE_LAMPORTS,
        ConnectionStatus::Connected => escrow == 2 * STAKE_LAMPORTS,
        ConnectionStatus::Rejected => escrow == 0,
        ConnectionStatus::Withdrawn => escrow == 0,
    }
}

} // verus!
