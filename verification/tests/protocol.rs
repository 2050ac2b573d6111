use linkify::errors::Error;
use linkify::keys::IdentityKey;
use linkify::ops::accept_connection;
use linkify::ops::create_user;
use linkify::ops::reject_connection;
use linkify::ops::request_connection;
use linkify::ops::update_username;
use linkify::ops::withdraw_stake;
use linkify::ops::AcceptConnection;
use linkify::ops::CreateUser;
use linkify::ops::RejectConnection;
use linkify::ops::RequestConnection;
use linkify::ops::UpdateUsername;
use linkify::ops::WithdrawStake;
use linkify::state::Connection;
use linkify::state::ConnectionStatus;
use linkify::state::UserInfo;
use linkify::state::STAKE_LAMPORTS;

fn key(n: u64) -> IdentityKey {
    IdentityKey { w0: n, w1: 0, w2: 0, w3: 0 }
}

fn profile(id: IdentityKey, name: &str) -> UserInfo {
    UserInfo {
        identity: id,
        display_name: name.to_string(),
        requests_sent: 0,
        requests_received: 0,
        requests_checked: 0,
        staked_count: 0,
        unstaked_count: 0,
    }
}

#[test]
fn create_user_initializes_counters() {
    let r = key(1);
    let mut ctx = CreateUser { signer: r, user_info: None };
    assert_eq!(create_user(&mut ctx, "alice".to_string()), Ok(()));
    let prof = ctx.user_info.expect("profile created");
    assert_eq!(prof.identity, r);
    assert_eq!(prof.display_name, "alice");
    assert_eq!(prof.requests_sent, 0);
    assert_eq!(prof.requests_received, 0);
    assert_eq!(prof.requests_checked, 0);
    assert_eq!(prof.staked_count, 0);
    assert_eq!(prof.unstaked_count, 0);
}

#[test]
fn create_user_fails_when_profile_exists() {
    let r = key(1);
    let mut ctx = CreateUser { signer: r, user_info: None };
    assert_eq!(create_user(&mut ctx, "alice".to_string()), Ok(()));
    let before = ctx.user_info.clone().unwrap();
    assert_eq!(
        create_user(&mut ctx, "other".to_string()),
        Err(Error::AlreadyExists)
    );
    let after = ctx.user_info.unwrap();
    assert_eq!(after.display_name, before.display_name);
    assert_eq!(after.identity, before.identity);
}

#[test]
fn update_username_overwrites_name_only() {
    let r = key(3);
    let mut ctx = UpdateUsername { signer: r, user_info: profile(r, "old") };
    assert_eq!(update_username(&mut ctx, r, "new name".to_string()), Ok(()));
    assert_eq!(ctx.user_info.display_name, "new name");
    assert_eq!(ctx.user_info.identity, r);
    assert_eq!(ctx.user_info.requests_sent, 0);
}

#[test]
fn update_username_rejects_wrong_identity() {
    let r = key(3);
    let mut ctx = UpdateUsername { signer: r, user_info: profile(r, "old") };
    assert_eq!(
        update_username(&mut ctx, key(4), "new".to_string()),
        Err(Error::Unauthorized)
    );
    assert_eq!(ctx.user_info.display_name, "old");
}

#[test]
fn request_escrows_exactly_one_stake() {
    let r = key(1);
    let a = key(2);
    let mut ctx = RequestConnection {
        signer: r,
        signer_lamports: 1_000_000_000,
        requester_acc: profile(r, "alice"),
        acceptor_acc: profile(a, "bob"),
        connection: None,
        connection_lamports: 0,
    };
    assert_eq!(request_connection(&mut ctx, a), Ok(()));
    assert_eq!(ctx.connection_lamports, STAKE_LAMPORTS);
    assert_eq!(ctx.connection_lamports, 200_000_000);
    assert_eq!(ctx.signer_lamports, 800_000_000);
    let conn = ctx.connection.expect("connection created");
    assert_eq!(conn.status, ConnectionStatus::Pending);
    assert_eq!(conn.requester, r);
    assert_eq!(conn.acceptor, a);
    assert_eq!(ctx.acceptor_acc.requests_received, 1);
    assert_eq!(ctx.requester_acc.requests_sent, 1);
}

#[test]
fn request_to_self_fails_and_moves_nothing() {
    let r = key(1);
    let mut ctx = RequestConnection {
        signer: r,
        signer_lamports: 1_000_000_000,
        requester_acc: profile(r, "alice"),
        acceptor_acc: profile(r, "alice"),
        connection: None,
        connection_lamports: 0,
    };
    assert_eq!(request_connection(&mut ctx, r), Err(Error::SameIdentity));
    assert_eq!(ctx.signer_lamports, 1_000_000_000);
    assert_eq!(ctx.connection_lamports, 0);
    assert!(ctx.connection.is_none());
    assert_eq!(ctx.acceptor_acc.requests_received, 0);
    assert_eq!(ctx.requester_acc.requests_sent, 0);
}

#[test]
fn request_rejects_mismatched_acceptor() {
    let r = key(1);
    let a = key(2);
    let mut ctx = RequestConnection {
        signer: r,
        signer_lamports: 1_000_000_000,
        requester_acc: profile(r, "alice"),
        acceptor_acc: profile(a, "bob"),
        connection: None,
        connection_lamports: 0,
    };
    assert_eq!(
        request_connection(&mut ctx, key(9)),
        Err(Error::InvalidAcceptor)
    );
    assert_eq!(ctx.signer_lamports, 1_000_000_000);
}

#[test]
fn request_rejects_occupied_location() {
    let r = key(1);
    let a = key(2);
    let mut ctx = RequestConnection {
        signer: r,
        signer_lamports: 1_000_000_000,
        requester_acc: profile(r, "alice"),
        acceptor_acc: profile(a, "bob"),
        connection: Some(Connection {
            requester: key(5),
            acceptor: a,
            status: ConnectionStatus::Pending,
        }),
        connection_lamports: STAKE_LAMPORTS,
    };
    assert_eq!(request_connection(&mut ctx, a), Err(Error::AlreadyExists));
    assert_eq!(ctx.connection_lamports, STAKE_LAMPORTS);
    assert_eq!(ctx.signer_lamports, 1_000_000_000);
}

#[test]
fn request_rejects_insufficient_balance() {
    let r = key(1);
    let a = key(2);
    let mut ctx = RequestConnection {
        signer: r,
        signer_lamports: STAKE_LAMPORTS - 1,
        requester_acc: profile(r, "alice"),
        acceptor_acc: profile(a, "bob"),
        connection: None,
        connection_lamports: 0,
    };
    assert_eq!(
        request_connection(&mut ctx, a),
        Err(Error::InsufficientBalance)
    );
    assert_eq!(ctx.signer_lamports, STAKE_LAMPORTS - 1);
    assert!(ctx.connection.is_none());
}

#[test]
fn round_trip_request_accept_withdraw() {
    let r = key(1);
    let a = key(2);
    let mut rq = RequestConnection {
        signer: r,
        signer_lamports: 1_000_000_000,
        requester_acc: profile(r, "alice"),
        acceptor_acc: profile(a, "bob"),
        connection: None,
        connection_lamports: 0,
    };
    assert_eq!(request_connection(&mut rq, a), Ok(()));
    assert_eq!(rq.acceptor_acc.requests_received, 1);
    assert_eq!(rq.connection_lamports, STAKE_LAMPORTS);

    let mut ac = AcceptConnection {
        signer: a,
        signer_lamports: 500_000_000,
        acceptor_acc: rq.acceptor_acc,
        requester_acc: rq.requester_acc,
        connection: rq.connection.unwrap(),
        connection_lamports: rq.connection_lamports,
    };
    assert_eq!(accept_connection(&mut ac, r), Ok(()));
    assert_eq!(ac.connection_lamports, 2 * STAKE_LAMPORTS);
    assert_eq!(ac.connection.status, ConnectionStatus::Connected);
    assert_eq!(ac.acceptor_acc.requests_checked, 1);
    assert_eq!(ac.requester_acc.staked_count, 1);
    assert_eq!(ac.signer_lamports, 300_000_000);

    let mut wd = WithdrawStake {
        signer: a,
        acceptor_acc: ac.acceptor_acc,
        requester_acc: ac.requester_acc,
        connection: ac.connection,
        connection_lamports: ac.connection_lamports,
        requester_recipient: r,
        requester_recipient_lamports: 10,
        acceptor_recipient: a,
        acceptor_recipient_lamports: 20,
    };
    assert_eq!(withdraw_stake(&mut wd, a), Ok(()));
    assert_eq!(wd.requester_recipient_lamports, 10 + STAKE_LAMPORTS);
    assert_eq!(wd.acceptor_recipient_lamports, 20 + STAKE_LAMPORTS);
    assert_eq!(wd.connection_lamports, 0);
    assert_eq!(wd.connection.status, ConnectionStatus::Withdrawn);
    assert_eq!(wd.requester_acc.unstaked_count, 1);
}

#[test]
fn rejection_refunds_requester_in_full() {
    let r = key(1);
    let a = key(2);
    let requester_balance_before_request: u64 = 1_000_000_000;
    let mut rq = RequestConnection {
        signer: r,
        signer_lamports: requester_balance_before_request,
        requester_acc: profile(r, "alice"),
        acceptor_acc: profile(a, "bob"),
        connection: None,
        connection_lamports: 0,
    };
    assert_eq!(request_connection(&mut rq, a), Ok(()));

    let mut rj = RejectConnection {
        signer: a,
        denialist_acc: rq.acceptor_acc,
        requester_acc: rq.requester_acc,
        requester_lamports: rq.signer_lamports,
        connection: rq.connection.unwrap(),
        connection_lamports: rq.connection_lamports,
    };
    assert_eq!(reject_connection(&mut rj, a), Ok(()));
    assert_eq!(rj.requester_lamports, requester_balance_before_request);
    assert_eq!(rj.connection_lamports, 0);
    assert_eq!(rj.connection.status, ConnectionStatus::Rejected);
    assert_eq!(rj.denialist_acc.requests_checked, 1);
    assert_eq!(rj.requester_acc.unstaked_count, 1);
}

#[test]
fn accept_fails_on_wrong_stored_acceptor() {
    let r = key(1);
    let a = key(2);
    let mut ac = AcceptConnection {
        signer: a,
        signer_lamports: 500_000_000,
        acceptor_acc: profile(a, "bob"),
        requester_acc: profile(r, "alice"),
        connection: Connection {
            requester: r,
            acceptor: key(9),
            status: ConnectionStatus::Pending,
        },
        connection_lamports: STAKE_LAMPORTS,
    };
    assert_eq!(accept_connection(&mut ac, r), Err(Error::IncorrectAcceptor));
    assert_eq!(ac.signer_lamports, 500_000_000);
    assert_eq!(ac.connection_lamports, STAKE_LAMPORTS);
}

#[test]
fn accept_fails_on_wrong_requester() {
    let r = key(1);
    let a = key(2);
    let mut ac = AcceptConnection {
        signer: a,
        signer_lamports: 500_000_000,
        acceptor_acc: profile(a, "bob"),
        requester_acc: profile(r, "alice"),
        connection: Connection {
            requester: key(9),
            acceptor: a,
            status: ConnectionStatus::Pending,
        },
        connection_lamports: STAKE_LAMPORTS,
    };
    assert_eq!(accept_connection(&mut ac, r), Err(Error::IncorrectRequester));
}

#[test]
fn accept_fails_on_mismatched_requester_argument() {
    let r = key(1);
    let a = key(2);
    let mut ac = AcceptConnection {
        signer: a,
        signer_lamports: 500_000_000,
        acceptor_acc: profile(a, "bob"),
        requester_acc: profile(r, "alice"),
        connection: Connection { requester: r, acceptor: a, status: ConnectionStatus::Pending },
        connection_lamports: STAKE_LAMPORTS,
    };
    assert_eq!(
        accept_connection(&mut ac, key(9)),
        Err(Error::IncorrectRequester)
    );
}

#[test]
fn accept_fails_on_insufficient_balance() {
    let r = key(1);
    let a = key(2);
    let mut ac = AcceptConnection {
        signer: a,
        signer_lamports: STAKE_LAMPORTS - 1,
        acceptor_acc: profile(a, "bob"),
        requester_acc: profile(r, "alice"),
        connection: Connection { requester: r, acceptor: a, status: ConnectionStatus::Pending },
        connection_lamports: STAKE_LAMPORTS,
    };
    assert_eq!(
        accept_connection(&mut ac, r),
        Err(Error::InsufficientBalance)
    );
    assert_eq!(ac.signer_lamports, STAKE_LAMPORTS - 1);
}

#[test]
fn accept_cannot_succeed_twice() {
    let r = key(1);
    let a = key(2);
    let mut ac = AcceptConnection {
        signer: a,
        signer_lamports: 500_000_000,
        acceptor_acc: profile(a, "bob"),
        requester_acc: profile(r, "alice"),
        connection: Connection { requester: r, acceptor: a, status: ConnectionStatus::Pending },
        connection_lamports: STAKE_LAMPORTS,
    };
    assert_eq!(accept_connection(&mut ac, r), Ok(()));
    let balance_after_first = ac.signer_lamports;
    assert_eq!(accept_connection(&mut ac, r), Err(Error::NotConnected));
    assert_eq!(ac.signer_lamports, balance_after_first);
    assert_eq!(ac.connection_lamports, 2 * STAKE_LAMPORTS);
    assert_eq!(ac.acceptor_acc.requests_checked, 1);
}

#[test]
fn reject_fails_on_wrong_denier_argument() {
    let r = key(1);
    let a = key(2);
    let mut rj = RejectConnection {
        signer: a,
        denialist_acc: profile(a, "bob"),
        requester_acc: profile(r, "alice"),
        requester_lamports: 0,
        connection: Connection { requester: r, acceptor: a, status: ConnectionStatus::Pending },
        connection_lamports: STAKE_LAMPORTS,
    };
    assert_eq!(
        reject_connection(&mut rj, key(9)),
        Err(Error::IncorrectRejector)
    );
    assert_eq!(rj.requester_lamports, 0);
    assert_eq!(rj.connection_lamports, STAKE_LAMPORTS);
}

#[test]
fn reject_fails_on_wrong_stored_acceptor() {
    let r = key(1);
    let a = key(2);
    let mut rj = RejectConnection {
        signer: a,
        denialist_acc: profile(a, "bob"),
        requester_acc: profile(r, "alice"),
        requester_lamports: 0,
        connection: Connection { requester: r, acceptor: key(9), status: ConnectionStatus::Pending },
        connection_lamports: STAKE_LAMPORTS,
    };
    assert_eq!(reject_connection(&mut rj, a), Err(Error::IncorrectAcceptor));
    assert_eq!(rj.connection_lamports, STAKE_LAMPORTS);
}

#[test]
fn reject_fails_on_wrong_requester_profile() {
    let r = key(1);
    let a = key(2);
    let mut rj = RejectConnection {
        signer: a,
        denialist_acc: profile(a, "bob"),
        requester_acc: profile(key(9), "carol"),
        requester_lamports: 0,
        connection: Connection { requester: r, acceptor: a, status: ConnectionStatus::Pending },
        connection_lamports: STAKE_LAMPORTS,
    };
    assert_eq!(reject_connection(&mut rj, a), Err(Error::IncorrectRequester));
    assert_eq!(rj.requester_lamports, 0);
}

#[test]
fn reject_fails_once_connected() {
    let r = key(1);
    let a = key(2);
    let mut rj = RejectConnection {
        signer: a,
        denialist_acc: profile(a, "bob"),
        requester_acc: profile(r, "alice"),
        requester_lamports: 0,
        connection: Connection { requester: r, acceptor: a, status: ConnectionStatus::Connected },
        connection_lamports: 2 * STAKE_LAMPORTS,
    };
    assert_eq!(reject_connection(&mut rj, a), Err(Error::NotConnected));
    assert_eq!(rj.connection_lamports, 2 * STAKE_LAMPORTS);
}

#[test]
fn withdraw_fails_while_pending() {
    let r = key(1);
    let a = key(2);
    let mut wd = WithdrawStake {
        signer: r,
        acceptor_acc: profile(a, "bob"),
        requester_acc: profile(r, "alice"),
        connection: Connection { requester: r, acceptor: a, status: ConnectionStatus::Pending },
        connection_lamports: STAKE_LAMPORTS,
        requester_recipient: r,
        requester_recipient_lamports: 0,
        acceptor_recipient: a,
        acceptor_recipient_lamports: 0,
    };
    assert_eq!(withdraw_stake(&mut wd, r), Err(Error::NotConnected));
    assert_eq!(wd.connection_lamports, STAKE_LAMPORTS);
    assert_eq!(wd.requester_recipient_lamports, 0);
}

#[test]
fn withdraw_fails_for_outsider() {
    let r = key(1);
    let a = key(2);
    let outsider = key(9);
    let mut wd = WithdrawStake {
        signer: outsider,
        acceptor_acc: profile(a, "bob"),
        requester_acc: profile(r, "alice"),
        connection: Connection { requester: r, acceptor: a, status: ConnectionStatus::Connected },
        connection_lamports: 2 * STAKE_LAMPORTS,
        requester_recipient: r,
        requester_recipient_lamports: 0,
        acceptor_recipient: a,
        acceptor_recipient_lamports: 0,
    };
    assert_eq!(withdraw_stake(&mut wd, outsider), Err(Error::Unauthorized));
    assert_eq!(wd.connection_lamports, 2 * STAKE_LAMPORTS);
}

#[test]
fn withdraw_fails_on_unbound_recipient() {
    let r = key(1);
    let a = key(2);
    let mut wd = WithdrawStake {
        signer: r,
        acceptor_acc: profile(a, "bob"),
        requester_acc: profile(r, "alice"),
        connection: Connection { requester: r, acceptor: a, status: ConnectionStatus::Connected },
        connection_lamports: 2 * STAKE_LAMPORTS,
        requester_recipient: key(9),
        requester_recipient_lamports: 0,
        acceptor_recipient: a,
        acceptor_recipient_lamports: 0,
    };
    assert_eq!(withdraw_stake(&mut wd, r), Err(Error::Unauthorized));
    assert_eq!(wd.requester_recipient_lamports, 0);
    assert_eq!(wd.connection_lamports, 2 * STAKE_LAMPORTS);
}

#[test]
fn withdraw_fails_after_reject() {
    let r = key(1);
    let a = key(2);
    let mut rj = RejectConnection {
        signer: a,
        denialist_acc: profile(a, "bob"),
        requester_acc: profile(r, "alice"),
        requester_lamports: 0,
        connection: Connection { requester: r, acceptor: a, status: ConnectionStatus::Pending },
        connection_lamports: STAKE_LAMPORTS,
    };
    assert_eq!(reject_connection(&mut rj, a), Ok(()));

    let mut wd = WithdrawStake {
        signer: r,
        acceptor_acc: rj.denialist_acc,
        requester_acc: rj.requester_acc,
        connection: rj.connection,
        connection_lamports: rj.connection_lamports,
        requester_recipient: r,
        requester_recipient_lamports: 0,
        acceptor_recipient: a,
        acceptor_recipient_lamports: 0,
    };
    assert_eq!(withdraw_stake(&mut wd, r), Err(Error::NotConnected));
    assert_eq!(wd.requester_recipient_lamports, 0);
    assert_eq!(wd.acceptor_recipient_lamports, 0);
}

#[test]
fn withdraw_fails_after_withdraw() {
    let r = key(1);
    let a = key(2);
    let mut wd = WithdrawStake {
        signer: r,
        acceptor_acc: profile(a, "bob"),
        requester_acc: profile(r, "alice"),
        connection: Connection { requester: r, acceptor: a, status: ConnectionStatus::Connected },
        connection_lamports: 2 * STAKE_LAMPORTS,
        requester_recipient: r,
        requester_recipient_lamports: 0,
        acceptor_recipient: a,
        acceptor_recipient_lamports: 0,
    };
    assert_eq!(withdraw_stake(&mut wd, r), Ok(()));
    assert_eq!(withdraw_stake(&mut wd, r), Err(Error::NotConnected));
    assert_eq!(wd.requester_recipient_lamports, STAKE_LAMPORTS);
    assert_eq!(wd.acceptor_recipient_lamports, STAKE_LAMPORTS);
}
