use vstd::prelude::*;

verus! {

/// The failures that a protocol operation can surface to its caller.
///
/// Every operation detects its failure before any mutation, so an error
/// always means that no state changed and no value moved.
#[derive(PartialEq, Eq, Structural, Clone, Copy, Debug)]
pub enum Error {
    /// A record already exists at the address the operation would create.
    AlreadyExists,
    /// The caller is not a party the operation admits.
    Unauthorized,
    /// The supplied acceptor identity does not match the resolved profile.
    InvalidAcceptor,
    /// Requester and acceptor would be the same identity.
    SameIdentity,
    /// The acceptor identity stored in the connection does not match.
    IncorrectAcceptor,
    /// The requester identity stored in the connection does not match.
    IncorrectRequester,
    /// The rejecting caller does not match the expected denier.
    IncorrectRejector,
    /// The connection is not in the status the transition needs.
    NotConnected,
    /// The paying balance cannot cover the stake.
    InsufficientBalance,
}

} // verus!
