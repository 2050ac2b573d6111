use vstd::prelude::*;

use crate::errors::Error;
use crate::keys::IdentityKey;
use crate::state::Connection;
use crate::state::ConnectionStatus;
use crate::state::UserInfo;
use crate::state::MAX_DISPLAY_NAME_LEN;
use crate::state::STAKE_LAMPORTS;
use crate::state::connection_wf;
use crate::state::escrow_consistent;
use crate::state::user_info_wf;

verus! {

// ---------------------------------------------------------------------------
// Profile registration
// ---------------------------------------------------------------------------

/// The record set `create_user` works on: the signing identity and whatever
/// record already sits at its derived profile address.
pub struct CreateUser {
    /// The identity that signed the operation.
    pub signer: IdentityKey,
    /// The record at the signer's derived profile address, if one exists.
    pub user_info: Option<UserInfo>,
}

/// The host hands `create_user` a record set it resolved itself: a record
/// found at the signer's profile address belongs to the signer.
pub open spec fn create_user_ctx_wf(c: CreateUser) -> bool {
    match c.user_info {
        Some(u) => u.identity == c.signer && user_info_wf(u),
        None => true,
    }
}

/// `create_user` succeeds exactly when no profile exists yet.
pub open spec fn create_user_ok(c: CreateUser) -> bool {
    c.user_info is None
}

/// The profile a successful `create_user` writes: identity bound, every
/// counter zero.
pub open spec fn new_profile(identity: IdentityKey, display_name: String) -> UserInfo {
    UserInfo {
        identity,
        display_name,
        requests_sent: 0,
        requests_received: 0,
        requests_checked: 0,
        staked_count: 0,
        unstaked_count: 0,
    }
}

/// Registers a profile for the signing identity, all counters at zero.
/// Fails with `AlreadyExists`, touching nothing, when a profile already
/// sits at the identity's derived address.
pub fn create_user(ctx: &mut CreateUser, username: String) -> (r: Result<(), Error>)
    requires
        create_user_ctx_wf(*old(ctx)),
        username@.len() <= MAX_DISPLAY_NAME_LEN,
    ensures
        (r is Ok) == create_user_ok(*old(ctx)),
        r is Ok ==> final(ctx).user_info == Some(new_profile(old(ctx).signer, username)),
        final(ctx).signer == old(ctx).signer,
        r is Err ==> *final(ctx) == *old(ctx) && r == Err::<(), Error>(Error::AlreadyExists),
        create_user_ctx_wf(*final(ctx)),
{
    if ctx.user_info.is_some() {
        return Err(Error::AlreadyExists);
    }
    ctx.user_info = Some(UserInfo {
        identity: ctx.signer,
        display_name: username,
        requests_sent: 0,
        requests_received: 0,
        requests_checked: 0,
        staked_count: 0,
        unstaked_count: 0,
    });
    Ok(())
}

// ---------------------------------------------------------------------------
// Display-name update
// ---------------------------------------------------------------------------

/// The record set `update_username` works on: the signer and its own
/// profile record.
pub struct UpdateUsername {
    /// The identity that signed the operation.
    pub signer: IdentityKey,
    /// The profile at the signer's derived profile address.
    pub user_info: UserInfo,
}

/// The profile handed in was resolved from the signer's own address.
pub open spec fn update_username_ctx_wf(c: UpdateUsername) -> bool {
    c.user_info.identity == c.signer && user_info_wf(c.user_info)
}

/// `update_username` succeeds exactly when the named identity is the one
/// the profile is bound to.
pub open spec fn update_username_ok(c: UpdateUsername, user_pubkey: IdentityKey) -> bool {
    c.user_info.identity == user_pubkey
}

/// Overwrites the profile's display name and nothing else. Fails with
/// `Unauthorized`, touching nothing, unless the named identity matches the
/// profile's owner.
pub fn update_username(
    ctx: &mut UpdateUsername,
    user_pubkey: IdentityKey,
    username: String,
) -> (r: Result<(), Error>)
    requires
        update_username_ctx_wf(*old(ctx)),
        username@.len() <= MAX_DISPLAY_NAME_LEN,
    ensures
        (r is Ok) == update_username_ok(*old(ctx), user_pubkey),
        r is Ok ==> final(ctx).user_info == (UserInfo {
            display_name: username,
            ..old(ctx).user_info
        }),
        final(ctx).signer == old(ctx).signer,
        r is Err ==> *final(ctx) == *old(ctx) && r == Err::<(), Error>(Error::Unauthorized),
        update_username_ctx_wf(*final(ctx)),
{
    if ctx.user_info.identity != user_pubkey {
        return Err(Error::Unauthorized);
    }
    ctx.user_info.display_name = username;
    Ok(())
}

// ---------------------------------------------------------------------------
// Requesting a connection
// ---------------------------------------------------------------------------

/// The record set `request_connection` works on: the requester's and the
/// acceptor's profiles, the requester's external balance, and the location
/// derived for the new connection from the acceptor's identity and its
/// current `requests_received` counter.
pub struct RequestConnection {
    /// The requesting identity, which signed and pays the stake.
    pub signer: IdentityKey,
    /// The requester's external balance.
    pub signer_lamports: u64,
    /// The profile at the signer's derived profile address.
    pub requester_acc: UserInfo,
    /// The profile resolved for the acceptor.
    pub acceptor_acc: UserInfo,
    /// The record at the derived connection address, if one exists there.
    pub connection: Option<Connection>,
    /// The value held at the derived connection address.
    pub connection_lamports: u64,
}

/// What the host's addressing guarantees about the record set: the
/// requester profile belongs to the signer, profiles are well formed, a
/// still-empty connection location holds no value, and an occupied one
/// holds a well-formed record with a consistent escrow.
pub open spec fn request_ctx_wf(c: RequestConnection) -> bool {
    &&& c.requester_acc.identity == c.signer
    &&& user_info_wf(c.requester_acc)
    &&& user_info_wf(c.acceptor_acc)
    &&& match c.connection {
        Some(k) => connection_wf(k) && escrow_consistent(k, c.connection_lamports),
        None => c.connection_lamports == 0,
    }
}

/// `request_connection` succeeds exactly when the acceptor resolves to the
/// named identity, the parties differ, the derived location is free, and
/// the requester can pay the stake.
pub open spec fn request_ok(c: RequestConnection, acceptor_pubkey: IdentityKey) -> bool {
    &&& c.acceptor_acc.identity == acceptor_pubkey
    &&& c.acceptor_acc.identity != c.requester_acc.identity
    &&& c.connection is None
    &&& c.signer_lamports >= STAKE_LAMPORTS
}

/// The error a failing `request_connection` surfaces: the first check that
/// does not hold, in the order the operation makes them.
pub open spec fn request_err_code(c: RequestConnection, acceptor_pubkey: IdentityKey) -> Error
    recommends
        !request_ok(c, acceptor_pubkey),
{
    if c.acceptor_acc.identity != acceptor_pubkey {
        Error::InvalidAcceptor
    } else if c.acceptor_acc.identity == c.requester_acc.identity {
        Error::SameIdentity
    } else if c.connection is Some {
        Error::AlreadyExists
    } else {
        Error::InsufficientBalance
    }
}

/// The sequence value frozen into the new connection's address: the
/// acceptor's `requests_received` counter as it stood at request time.
pub open spec fn request_sequence(c: RequestConnection) -> u32 {
    c.acceptor_acc.requests_received
}

/// The record set after a successful `request_connection`: one stake moved
/// from the requester's balance into the new record's escrow, the record
/// pending between the two parties, and both bookkeeping counters advanced.
pub open spec fn request_next(c: RequestConnection, acceptor_pubkey: IdentityKey) -> RequestConnection
    recommends
        request_ok(c, acceptor_pubkey),
        c.acceptor_acc.requests_received < u32::MAX,
        c.requester_acc.requests_sent < u32::MAX,
{
    RequestConnection {
        signer_lamports: (c.signer_lamports - STAKE_LAMPORTS) as u64,
        requester_acc: UserInfo {
            requests_sent: (c.requester_acc.requests_sent + 1) as u32,
            ..c.requester_acc
        },
        acceptor_acc: UserInfo {
            requests_received: (c.acceptor_acc.requests_received + 1) as u32,
            ..c.acceptor_acc
        },
        connection: Some(Connection {
            requester: c.requester_acc.identity,
            acceptor: acceptor_pubkey,
            status: ConnectionStatus::Pending,
        }),
        connection_lamports: STAKE_LAMPORTS,
        ..c
    }
}

/// Opens a connection request from the signer to the named acceptor: moves
/// one stake from the requester's external balance into the new record's
/// escrow, initializes the record as pending, and advances the acceptor's
/// `requests_received` and the requester's `requests_sent`. On any failure
/// nothing is touched and no value moves.
pub fn request_connection(
    ctx: &mut RequestConnection,
    acceptor_pubkey: IdentityKey,
) -> (r: Result<(), Error>)
    requires
        request_ctx_wf(*old(ctx)),
        request_ok(*old(ctx), acceptor_pubkey) ==> {
            &&& old(ctx).acceptor_acc.requests_received < u32::MAX
            &&& old(ctx).requester_acc.requests_sent < u32::MAX
        },
    ensures
        (r is Ok) == request_ok(*old(ctx), acceptor_pubkey),
        r is Ok ==> *final(ctx) == request_next(*old(ctx), acceptor_pubkey),
        r is Ok ==> final(ctx).connection_lamports == STAKE_LAMPORTS
            && final(ctx).connection == Some(Connection {
                requester: old(ctx).requester_acc.identity,
                acceptor: acceptor_pubkey,
                status: ConnectionStatus::Pending,
            })
            && final(ctx).signer_lamports + final(ctx).connection_lamports
                == old(ctx).signer_lamports + old(ctx).connection_lamports,
        r is Ok ==> final(ctx).acceptor_acc.requests_received
            == request_sequence(*old(ctx)) + 1,
        r matches Err(e) ==> *final(ctx) == *old(ctx)
            && e == request_err_code(*old(ctx), acceptor_pubkey),
        request_ctx_wf(*final(ctx)),
{
    if ctx.acceptor_acc.identity != acceptor_pubkey {
        return Err(Error::InvalidAcceptor);
    }
    if ctx.acceptor_acc.identity == ctx.requester_acc.identity {
        return Err(Error::SameIdentity);
    }
    if ctx.connection.is_some() {
        return Err(Error::AlreadyExists);
    }
    if ctx.signer_lamports < STAKE_LAMPORTS {
        return Err(Error::InsufficientBalance);
    }
    ctx.signer_lamports = ctx.signer_lamports - STAKE_LAMPORTS;
    ctx.connection_lamports = ctx.connection_lamports + STAKE_LAMPORTS;
    ctx.connection = Some(Connection {
        requester: ctx.requester_acc.identity,
        acceptor: acceptor_pubkey,
        status: ConnectionStatus::Pending,
    });
    ctx.acceptor_acc.requests_received = ctx.acceptor_acc.requests_received + 1;
    ctx.requester_acc.requests_sent = ctx.requester_acc.requests_sent + 1;
    Ok(())
}

// ---------------------------------------------------------------------------
// Accepting a connection
// ---------------------------------------------------------------------------

/// The record set `accept_connection` works on: the pending connection,
/// its escrow, the accepting signer's balance and profile, and the
/// requester's profile.
pub struct AcceptConnection {
    /// The accepting identity, which signed and matches the stake.
    pub signer: IdentityKey,
    /// The acceptor's external balance.
    pub signer_lamports: u64,
    /// The profile at the signer's derived profile address.
    pub acceptor_acc: UserInfo,
    /// The profile resolved for the connection's requester.
    pub requester_acc: UserInfo,
    /// The connection record being answered.
    pub connection: Connection,
    /// The value held at the connection record.
    pub connection_lamports: u64,
}

/// The host's addressing guarantees: the acceptor profile belongs to the
/// signer, profiles are well formed, and the record carries a consistent
/// escrow between distinct parties.
pub open spec fn accept_ctx_wf(c: AcceptConnection) -> bool {
    &&& c.acceptor_acc.identity == c.signer
    &&& user_info_wf(c.acceptor_acc)
    &&& user_info_wf(c.requester_acc)
    &&& connection_wf(c.connection)
    &&& escrow_consistent(c.connection, c.connection_lamports)
}

/// `accept_connection` succeeds exactly when the stored identities match
/// the resolved profiles and the named requester, the parties differ, the
/// record is still pending, and the acceptor can match the stake.
pub open spec fn accept_ok(c: AcceptConnection, requester_pubkey: IdentityKey) -> bool {
    &&& c.connection.acceptor == c.acceptor_acc.identity
    &&& c.connection.requester == c.requester_acc.identity
    &&& c.requester_acc.identity == requester_pubkey
    &&& c.acceptor_acc.identity != c.requester_acc.identity
    &&& c.connection.status is Pending
    &&& c.signer_lamports >= STAKE_LAMPORTS
}

/// The error a failing `accept_connection` surfaces: the first check that
/// does not hold, in the order the operation makes them.
pub open spec fn accept_err_code(c: AcceptConnection, requester_pubkey: IdentityKey) -> Error
    recommends
        !accept_ok(c, requester_pubkey),
{
    if c.connection.acceptor != c.acceptor_acc.identity {
        Error::IncorrectAcceptor
    } else if c.connection.requester != c.requester_acc.identity {
        Error::IncorrectRequester
    } else if c.requester_acc.identity != requester_pubkey {
        Error::IncorrectRequester
    } else if c.acceptor_acc.identity == c.requester_acc.identity {
        Error::SameIdentity
    } else if !(c.connection.status is Pending) {
        Error::NotConnected
    } else {
        Error::InsufficientBalance
    }
}

/// The record set after a successful `accept_connection`: a matching stake
/// moved from the acceptor's balance into the escrow, the record connected,
/// and the two bookkeeping counters advanced.
pub open spec fn accept_next(c: AcceptConnection, requester_pubkey: IdentityKey) -> AcceptConnection
    recommends
        accept_ok(c, requester_pubkey),
        c.acceptor_acc.requests_checked < u32::MAX,
        c.requester_acc.staked_count < u32::MAX,
{
    AcceptConnection {
        signer_lamports: (c.signer_lamports - STAKE_LAMPORTS) as u64,
        acceptor_acc: UserInfo {
            requests_checked: (c.acceptor_acc.requests_checked + 1) as u32,
            ..c.acceptor_acc
        },
        requester_acc: UserInfo {
            staked_count: (c.requester_acc.staked_count + 1) as u32,
            ..c.requester_acc
        },
        connection: Connection { status: ConnectionStatus::Connected, ..c.connection },
        connection_lamports: (c.connection_lamports + STAKE_LAMPORTS) as u64,
        ..c
    }
}

/// Accepts a pending connection as the signing acceptor: moves a matching
/// stake from the acceptor's external balance into the escrow, which then
/// holds two stakes, marks the record connected, and advances the
/// acceptor's `requests_checked` and the requester's `staked_count`. On
/// any failure nothing is touched and no value moves.
pub fn accept_connection(
    ctx: &mut AcceptConnection,
    requester_pubkey: IdentityKey,
) -> (r: Result<(), Error>)
    requires
        accept_ctx_wf(*old(ctx)),
        accept_ok(*old(ctx), requester_pubkey) ==> {
            &&& old(ctx).acceptor_acc.requests_checked < u32::MAX
            &&& old(ctx).requester_acc.staked_count < u32::MAX
        },
    ensures
        (r is Ok) == accept_ok(*old(ctx), requester_pubkey),
        r is Ok ==> *final(ctx) == accept_next(*old(ctx), requester_pubkey),
        r is Ok ==> final(ctx).connection.status is Connected
            && final(ctx).connection_lamports == 2 * STAKE_LAMPORTS
            && final(ctx).signer_lamports + final(ctx).connection_lamports
                == old(ctx).signer_lamports + old(ctx).connection_lamports,
        r matches Err(e) ==> *final(ctx) == *old(ctx)
            && e == accept_err_code(*old(ctx), requester_pubkey),
        accept_ctx_wf(*final(ctx)),
{
    if ctx.connection.acceptor != ctx.acceptor_acc.identity {
        return Err(Error::IncorrectAcceptor);
    }
    if ctx.connection.requester != ctx.requester_acc.identity {
        return Err(Error::IncorrectRequester);
    }
    if ctx.requester_acc.identity != requester_pubkey {
        return Err(Error::IncorrectRequester);
    }
    if ctx.acceptor_acc.identity == ctx.requester_acc.identity {
        return Err(Error::SameIdentity);
    }
    if !matches!(ctx.connection.status, ConnectionStatus::Pending) {
        return Err(Error::NotConnected);
    }
    if ctx.signer_lamports < STAKE_LAMPORTS {
        return Err(Error::InsufficientBalance);
    }
    ctx.signer_lamports = ctx.signer_lamports - STAKE_LAMPORTS;
    ctx.connection_lamports = ctx.connection_lamports + STAKE_LAMPORTS;
    ctx.connection.status = ConnectionStatus::Connected;
    ctx.acceptor_acc.requests_checked = ctx.acceptor_acc.requests_checked + 1;
    ctx.requester_acc.staked_count = ctx.requester_acc.staked_count + 1;
    Ok(())
}

// ---------------------------------------------------------------------------
// Rejecting a connection
// ---------------------------------------------------------------------------

/// The record set `reject_connection` works on: the pending connection,
/// its escrow, the denying signer's profile, and the requester's profile
/// and external balance, which takes the refund.
pub struct RejectConnection {
    /// The denying identity, which signed.
    pub signer: IdentityKey,
    /// The profile at the signer's derived profile address.
    pub denialist_acc: UserInfo,
    /// The profile resolved for the connection's requester.
    pub requester_acc: UserInfo,
    /// The requester's external balance, which the escrow drains back to.
    pub requester_lamports: u64,
    /// The connection record being answered.
    pub connection: Connection,
    /// The value held at the connection record.
    pub connection_lamports: u64,
}

/// The host's addressing guarantees: the denier's profile belongs to the
/// signer, profiles are well formed, and the record carries a consistent
/// escrow between distinct parties.
pub open spec fn reject_ctx_wf(c: RejectConnection) -> bool {
    &&& c.denialist_acc.identity == c.signer
    &&& user_info_wf(c.denialist_acc)
    &&& user_info_wf(c.requester_acc)
    &&& connection_wf(c.connection)
    &&& escrow_consistent(c.connection, c.connection_lamports)
}

/// `reject_connection` succeeds exactly when the stored identities match
/// the resolved profiles and the named denier, the parties differ, and the
/// record is still pending.
pub open spec fn reject_ok(c: RejectConnection, denialist_pubkey: IdentityKey) -> bool {
    &&& c.connection.acceptor == c.denialist_acc.identity
    &&& c.connection.requester == c.requester_acc.identity
    &&& c.denialist_acc.identity == denialist_pubkey
    &&& c.denialist_acc.identity != c.requester_acc.identity
    &&& c.connection.status is Pending
}

/// The error a failing `reject_connection` surfaces: the first check that
/// does not hold, in the order the operation makes them.
pub open spec fn reject_err_code(c: RejectConnection, denialist_pubkey: IdentityKey) -> Error
    recommends
        !reject_ok(c, denialist_pubkey),
{
    if c.connection.acceptor != c.denialist_acc.identity {
        Error::IncorrectAcceptor
    } else if c.connection.requester != c.requester_acc.identity {
        Error::IncorrectRequester
    } else if c.denialist_acc.identity != denialist_pubkey {
        Error::IncorrectRejector
    } else if c.denialist_acc.identity == c.requester_acc.identity {
        Error::SameIdentity
    } else {
        Error::NotConnected
    }
}

/// The record set after a successful `reject_connection`: the whole escrow
/// back with the requester, the record closed as rejected, and the two
/// bookkeeping counters advanced.
pub open spec fn reject_next(c: RejectConnection, denialist_pubkey: IdentityKey) -> RejectConnection
    recommends
        reject_ok(c, denialist_pubkey),
        c.denialist_acc.requests_checked < u32::MAX,
        c.requester_acc.unstaked_count < u32::MAX,
        c.requester_lamports + c.connection_lamports <= u64::MAX,
{
    RejectConnection {
        denialist_acc: UserInfo {
            requests_checked: (c.denialist_acc.requests_checked + 1) as u32,
            ..c.denialist_acc
        },
        requester_acc: UserInfo {
            unstaked_count: (c.requester_acc.unstaked_count + 1) as u32,
            ..c.requester_acc
        },
        requester_lamports: (c.requester_lamports + c.connection_lamports) as u64,
        connection: Connection { status: ConnectionStatus::Rejected, ..c.connection },
        connection_lamports: 0,
        ..c
    }
}

/// Rejects a pending connection as the signing denier: drains the whole
/// escrow, one stake, back to the requester's external balance, closes the
/// record as rejected, and advances the denier's `requests_checked` and
/// the requester's `unstaked_count`. On any failure nothing is touched and
/// no value moves.
pub fn reject_connection(
    ctx: &mut RejectConnection,
    denialist_pubkey: IdentityKey,
) -> (r: Result<(), Error>)
    requires
        reject_ctx_wf(*old(ctx)),
        reject_ok(*old(ctx), denialist_pubkey) ==> {
            &&& old(ctx).denialist_acc.requests_checked < u32::MAX
            &&& old(ctx).requester_acc.unstaked_count < u32::MAX
            &&& old(ctx).requester_lamports + STAKE_LAMPORTS <= u64::MAX
        },
    ensures
        (r is Ok) == reject_ok(*old(ctx), denialist_pubkey),
        r is Ok ==> *final(ctx) == reject_next(*old(ctx), denialist_pubkey),
        r is Ok ==> final(ctx).connection_lamports == 0
            && final(ctx).connection.status is Rejected
            && final(ctx).requester_lamports
                == old(ctx).requester_lamports + old(ctx).connection_lamports
            && final(ctx).requester_lamports + final(ctx).connection_lamports
                == old(ctx).requester_lamports + old(ctx).connection_lamports,
        r matches Err(e) ==> *final(ctx) == *old(ctx)
            && e == reject_err_code(*old(ctx), denialist_pubkey),
        reject_ctx_wf(*final(ctx)),
{
    if ctx.connection.acceptor != ctx.denialist_acc.identity {
        return Err(Error::IncorrectAcceptor);
    }
    if ctx.connection.requester != ctx.requester_acc.identity {
        return Err(Error::IncorrectRequester);
    }
    if ctx.denialist_acc.identity != denialist_pubkey {
        return Err(Error::IncorrectRejector);
    }
    if ctx.denialist_acc.identity == ctx.requester_acc.identity {
        return Err(Error::SameIdentity);
    }
    if !matches!(ctx.connection.status, ConnectionStatus::Pending) {
        return Err(Error::NotConnected);
    }
    ctx.requester_lamports = ctx.requester_lamports + ctx.connection_lamports;
    ctx.connection_lamports = 0;
    ctx.connection.status = ConnectionStatus::Rejected;
    ctx.denialist_acc.requests_checked = ctx.denialist_acc.requests_checked + 1;
    ctx.requester_acc.unstaked_count = ctx.requester_acc.unstaked_count + 1;
    Ok(())
}

// ---------------------------------------------------------------------------
// Withdrawing the escrow
// ---------------------------------------------------------------------------

/// The record set `withdraw_stake` works on: the connected record, its
/// escrow, the two parties' profiles, and the two external balances the
/// split pays out to.
pub struct WithdrawStake {
    /// The identity that signed the operation.
    pub signer: IdentityKey,
    /// The profile resolved for the connection's acceptor.
    pub acceptor_acc: UserInfo,
    /// The profile resolved for the connection's requester.
    pub requester_acc: UserInfo,
    /// The connection record being drained.
    pub connection: Connection,
    /// The value held at the connection record.
    pub connection_lamports: u64,
    /// The external address named to take the requester's half.
    pub requester_recipient: IdentityKey,
    /// The balance at that address.
    pub requester_recipient_lamports: u64,
    /// The external address named to take the acceptor's half.
    pub acceptor_recipient: IdentityKey,
    /// The balance at that address.
    pub acceptor_recipient_lamports: u64,
}

/// The host's addressing guarantees: the two profiles are the ones the
/// record binds, both well formed, and the record carries a consistent
/// escrow between distinct parties.
pub open spec fn withdraw_ctx_wf(c: WithdrawStake) -> bool {
    &&& c.requester_acc.identity == c.connection.requester
    &&& c.acceptor_acc.identity == c.connection.acceptor
    &&& user_info_wf(c.requester_acc)
    &&& user_info_wf(c.acceptor_acc)
    &&& connection_wf(c.connection)
    &&& escrow_consistent(c.connection, c.connection_lamports)
}

/// `withdraw_stake` succeeds exactly when the record is connected, the
/// named signer is the one that signed and is one of the two parties, and
/// each named recipient address is the party bound in the record.
pub open spec fn withdraw_ok(c: WithdrawStake, signer: IdentityKey) -> bool {
    &&& c.connection.status is Connected
    &&& c.signer == signer
    &&& (signer == c.connection.requester || signer == c.connection.acceptor)
    &&& c.requester_recipient == c.connection.requester
    &&& c.acceptor_recipient == c.connection.acceptor
}

/// The error a failing `withdraw_stake` surfaces: `NotConnected` for a
/// record not in the connected status, `Unauthorized` for any identity or
/// recipient mismatch.
pub open spec fn withdraw_err_code(c: WithdrawStake, signer: IdentityKey) -> Error
    recommends
        !withdraw_ok(c, signer),
{
    if !(c.connection.status is Connected) {
        Error::NotConnected
    } else {
        Error::Unauthorized
    }
}

/// The record set after a successful `withdraw_stake`: the two-stake
/// escrow split evenly between the two bound recipients, the record closed
/// as withdrawn, and the requester's `unstaked_count` advanced.
pub open spec fn withdraw_next(c: WithdrawStake, signer: IdentityKey) -> WithdrawStake
    recommends
        withdraw_ok(c, signer),
        c.requester_acc.unstaked_count < u32::MAX,
        c.requester_recipient_lamports + c.connection_lamports / 2 <= u64::MAX,
        c.acceptor_recipient_lamports + c.connection_lamports / 2 <= u64::MAX,
{
    WithdrawStake {
        requester_acc: UserInfo {
            unstaked_count: (c.requester_acc.unstaked_count + 1) as u32,
            ..c.requester_acc
        },
        connection: Connection { status: ConnectionStatus::Withdrawn, ..c.connection },
        connection_lamports: 0,
        requester_recipient_lamports: (c.requester_recipient_lamports
            + c.connection_lamports / 2) as u64,
        acceptor_recipient_lamports: (c.acceptor_recipient_lamports
            + c.connection_lamports / 2) as u64,
        ..c
    }
}

/// Withdraws the escrow of a connected record as either party: splits the
/// two stakes evenly, one to the requester's bound address and one to the
/// acceptor's, closes the record as withdrawn, and advances the
/// requester's `unstaked_count`. On any failure nothing is touched and no
/// value moves.
pub fn withdraw_stake(ctx: &mut WithdrawStake, signer: IdentityKey) -> (r: Result<(), Error>)
    requires
        withdraw_ctx_wf(*old(ctx)),
        withdraw_ok(*old(ctx), signer) ==> {
            &&& old(ctx).requester_acc.unstaked_count < u32::MAX
            &&& old(ctx).requester_recipient_lamports + STAKE_LAMPORTS <= u64::MAX
            &&& old(ctx).acceptor_recipient_lamports + STAKE_LAMPORTS <= u64::MAX
        },
    ensures
        (r is Ok) == withdraw_ok(*old(ctx), signer),
        r is Ok ==> *final(ctx) == withdraw_next(*old(ctx), signer),
        r is Ok ==> final(ctx).connection_lamports == 0
            && final(ctx).connection.status is Withdrawn
            && final(ctx).requester_recipient_lamports
                == old(ctx).requester_recipient_lamports + old(ctx).connection_lamports / 2
            && final(ctx).acceptor_recipient_lamports
                == old(ctx).acceptor_recipient_lamports + old(ctx).connection_lamports / 2
            && final(ctx).requester_recipient_lamports + final(ctx).acceptor_recipient_lamports
                + final(ctx).connection_lamports
                == old(ctx).requester_recipient_lamports + old(ctx).acceptor_recipient_lamports
                + old(ctx).connection_lamports,
        r matches Err(e) ==> *final(ctx) == *old(ctx)
            && e == withdraw_err_code(*old(ctx), signer),
        withdraw_ctx_wf(*final(ctx)),
{
    if !matches!(ctx.connection.status, ConnectionStatus::Connected) {
        return Err(Error::NotConnected);
    }
    if ctx.signer != signer {
        return Err(Error::Unauthorized);
    }
    if !(signer == ctx.connection.requester || signer == ctx.connection.acceptor) {
        return Err(Error::Unauthorized);
    }
    if ctx.requester_recipient != ctx.connection.requester {
        return Err(Error::Unauthorized);
    }
    if ctx.acceptor_recipient != ctx.connection.acceptor {
        return Err(Error::Unauthorized);
    }
    let half = ctx.connection_lamports / 2;
    ctx.connection_lamports = 0;
    ctx.requester_recipient_lamports = ctx.requester_recipient_lamports + half;
    ctx.acceptor_recipient_lamports = ctx.acceptor_recipient_lamports + half;
    ctx.connection.status = ConnectionStatus::Withdrawn;
    ctx.requester_acc.unstaked_count = ctx.requester_acc.unstaked_count + 1;
    Ok(())
}

} // verus!
