use vstd::prelude::*;

use crate::address::connection_address;
use crate::address::connection_seeds;
use crate::errors::Error;
use crate::keys::IdentityKey;
use crate::ops::accept_err_code;
use crate::ops::accept_next;
use crate::ops::accept_ok;
use crate::ops::reject_next;
use crate::ops::reject_ok;
use crate::ops::request_next;
use crate::ops::request_ok;
use crate::ops::withdraw_err_code;
use crate::ops::withdraw_next;
use crate::ops::withdraw_ok;
use crate::ops::AcceptConnection;
use crate::ops::RejectConnection;
use crate::ops::RequestConnection;
use crate::ops::WithdrawStake;
use crate::state::escrow_consistent;
use crate::state::Connection;
use crate::state::STAKE_LAMPORTS;

verus! {

/// Escrow safety: the value a consistent connection record holds is
/// nothing, one stake, or two stakes — and, being an unsigned amount, it
/// can never be negative.
pub proof fn lemma_escrow_values(c: Connection, escrow: u64)
    requires
        escrow_consistent(c, escrow),
    ensures
        escrow == 0 || escrow == STAKE_LAMPORTS || escrow == 2 * STAKE_LAMPORTS,
{
}

/// Acceptance is one-shot: a successful acceptance leaves the record
/// connected, so no later acceptance of that record can succeed, whatever
/// record set and requester identity it is attempted with; the attempt
/// surfaces the status error or an identity mismatch.
pub proof fn lemma_accept_at_most_once(
    c1: AcceptConnection,
    rp1: IdentityKey,
    c2: AcceptConnection,
    rp2: IdentityKey,
)
    requires
        accept_ok(c1, rp1),
        c2.connection == accept_next(c1, rp1).connection,
    ensures
        !accept_ok(c2, rp2),
        accept_err_code(c2, rp2) == Error::NotConnected || accept_err_code(c2, rp2)
            == Error::IncorrectAcceptor || accept_err_code(c2, rp2) == Error::IncorrectRequester
            || accept_err_code(c2, rp2) == Error::SameIdentity,
{
}

/// Rejection refunds the stake: rejecting the connection a successful
/// request just created, with the requester's balance as the request left
/// it, puts the requester's external balance back at exactly its
/// pre-request value and advances the denier's checked count by exactly
/// one, and the requester's unstaked count with it.
pub proof fn lemma_reject_restores_requester_balance(
    rq: RequestConnection,
    acceptor_pubkey: IdentityKey,
    rj: RejectConnection,
)
    requires
        request_ok(rq, acceptor_pubkey),
        rj.connection == request_next(rq, acceptor_pubkey).connection->Some_0,
        rj.connection_lamports == request_next(rq, acceptor_pubkey).connection_lamports,
        rj.requester_lamports == request_next(rq, acceptor_pubkey).signer_lamports,
        rj.signer == acceptor_pubkey,
        rj.denialist_acc.identity == acceptor_pubkey,
        rj.requester_acc.identity == rq.requester_acc.identity,
        rj.denialist_acc.requests_checked < u32::MAX,
        rj.requester_acc.unstaked_count < u32::MAX,
    ensures
        reject_ok(rj, acceptor_pubkey),
        reject_next(rj, acceptor_pubkey).requester_lamports == rq.signer_lamports,
        reject_next(rj, acceptor_pubkey).denialist_acc.requests_checked
            == rj.denialist_acc.requests_checked + 1,
        reject_next(rj, acceptor_pubkey).requester_acc.unstaked_count
            == rj.requester_acc.unstaked_count + 1,
        reject_next(rj, acceptor_pubkey).connection_lamports == 0,
{
}

/// Withdrawal is one-shot: a successful withdrawal closes the record, so
/// no later withdrawal of that record can succeed, whatever record set
/// and signer it is attempted with; the attempt surfaces the status
/// error.
pub proof fn lemma_withdraw_at_most_once(
    c1: WithdrawStake,
    s1: IdentityKey,
    c2: WithdrawStake,
    s2: IdentityKey,
)
    requires
        withdraw_ok(c1, s1),
        c2.connection == withdraw_next(c1, s1).connection,
    ensures
        !withdraw_ok(c2, s2),
        withdraw_err_code(c2, s2) == Error::NotConnected,
{
}

/// A rejected record cannot be drained: rejection closes the record, so
/// a later withdrawal of it cannot succeed.
pub proof fn lemma_no_withdraw_after_reject(
    rj: RejectConnection,
    denialist_pubkey: IdentityKey,
    wd: WithdrawStake,
    signer: IdentityKey,
)
    requires
        reject_ok(rj, denialist_pubkey),
        wd.connection == reject_next(rj, denialist_pubkey).connection,
    ensures
        !withdraw_ok(wd, signer),
        withdraw_err_code(wd, signer) == Error::NotConnected,
{
}

/// Address determinism: a connection location derived twice from the same
/// acceptor identity and sequence, under the same program, is the same
/// location.
pub proof fn lemma_connection_address_deterministic(
    a1: IdentityKey,
    s1: u32,
    a2: IdentityKey,
    s2: u32,
    program_id: IdentityKey,
)
    requires
        a1 == a2,
        s1 == s2,
    ensures
        connection_address(a1, s1, program_id) == connection_address(a2, s2, program_id),
{
}

/// Distinct sequences never collide on their seed list: the sequence is
/// frozen into the third seed by an injective byte encoding, so two
/// derivations for the same acceptor with different sequences feed the
/// derivation rule different inputs.
pub proof fn lemma_connection_seeds_injective(
    a1: IdentityKey,
    s1: u32,
    a2: IdentityKey,
    s2: u32,
)
    requires
        s1 != s2,
    ensures
        connection_seeds(a1, s1) != connection_seeds(a2, s2),
{
    vstd::bytes::lemma_auto_spec_u32_to_from_le_bytes();
    if connection_seeds(a1, s1) == connection_seeds(a2, s2) {
        assert(connection_seeds(a1, s1)[2] == connection_seeds(a2, s2)[2]);
        assert(vstd::bytes::spec_u32_to_le_bytes(s1) == vstd::bytes::spec_u32_to_le_bytes(s2));
        assert(vstd::bytes::spec_u32_from_le_bytes(vstd::bytes::spec_u32_to_le_bytes(s1))
            == vstd::bytes::spec_u32_from_le_bytes(vstd::bytes::spec_u32_to_le_bytes(s2)));
        assert(false);
    }
}

} // verus!
