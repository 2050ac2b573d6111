use vstd::prelude::*;

use crate::keys::IdentityKey;

verus! {

/// What the ledger's program-derived-address rule returns for a seed list
/// under a program id: the 32-byte storage location and its bump seed, or
/// nothing in the improbable case that no bump yields a valid location.
/// The result is a function of the seed bytes and the program id alone,
/// which is what lets any client re-derive a record's location.
pub uninterp spec fn pda_of(seeds: Seq<Seq<u8>>, program_id: Seq<u8>) -> Option<(Seq<u8>, u8)>;

/// Relies on solana `Pubkey::try_find_program_address`: the returned
/// location and bump seed depend on the seed bytes and the program id
/// alone, and a returned location is exactly 32 bytes.
#[verifier::external_body]
fn find_pda(seeds: &Vec<Vec<u8>>, program_id: &Vec<u8>) -> (r: Option<(Vec<u8>, u8)>)
    requires
        program_id@.len() == 32,
    ensures
        (match r {
            Some(p) => Some((p.0@, p.1)),
            None => None::<(Seq<u8>, u8)>,
        }) == pda_of(seeds.deep_view(), program_id@),
        r matches Some(p) ==> p.0@.len() == 32,
{
    let id_bytes: [u8; 32] = program_id.as_slice().try_into().unwrap();
    let id = anchor_lang::prelude::Pubkey::new_from_array(id_bytes);
    let seed_slices: Vec<&[u8]> = seeds.iter().map(|s| s.as_slice()).collect();
    anchor_lang::prelude::Pubkey::try_find_program_address(&seed_slices, &id)
        .map(|(addr, bump)| (addr.to_bytes().to_vec(), bump))
}

/// The tag that scopes profile records in derivation: the ASCII bytes of
/// the word "user".
pub open spec fn profile_tag() -> Seq<u8> {
    seq![117u8, 115u8, 101u8, 114u8]
}

/// The tag that scopes connection records in derivation: the ASCII bytes
/// of the word "connect".
pub open spec fn connection_tag() -> Seq<u8> {
    seq![99u8, 111u8, 110u8, 110u8, 101u8, 99u8, 116u8]
}

fn profile_tag_bytes() -> (r: Vec<u8>)
    ensures
        r@ == profile_tag(),
{
    let mut v: Vec<u8> = Vec::new();
    v.push(117);
    v.push(115);
    v.push(101);
    v.push(114);
    proof {
        assert(v@ =~= profile_tag());
    }
    v
}

fn connection_tag_bytes() -> (r: Vec<u8>)
    ensures
        r@ == connection_tag(),
{
    let mut v: Vec<u8> = Vec::new();
    v.push(99);
    v.push(111);
    v.push(110);
    v.push(110);
    v.push(101);
    v.push(99);
    v.push(116);
    proof {
        assert(v@ =~= connection_tag());
    }
    v
}

/// The seed list an identity's profile record is derived from: the
/// profile tag, then the identity's bytes.
pub open spec fn profile_seeds(identity: IdentityKey) -> Seq<Seq<u8>> {
    seq![profile_tag(), identity@]
}

/// The seed list a connection record is derived from: the connection tag,
/// the acceptor's bytes, then the sequence frozen at request time in
/// little-endian bytes.
pub open spec fn connection_seeds(acceptor: IdentityKey, sequence: u32) -> Seq<Seq<u8>> {
    seq![connection_tag(), acceptor@, vstd::bytes::spec_u32_to_le_bytes(sequence)]
}

/// The derived location of an identity's profile record under a program.
pub open spec fn profile_address(identity: IdentityKey, program_id: IdentityKey) -> Option<
    (Seq<u8>, u8),
> {
    pda_of(profile_seeds(identity), program_id@)
}

/// The derived location of a connection record under a program, for an
/// acceptor identity and the sequence frozen at request time.
pub open spec fn connection_address(
    acceptor: IdentityKey,
    sequence: u32,
    program_id: IdentityKey,
) -> Option<(Seq<u8>, u8)> {
    pda_of(connection_seeds(acceptor, sequence), program_id@)
}

/// Derives the storage location of an identity's profile record under the
/// given program id: 32 bytes of location and the bump seed that made it
/// valid. The result depends on the identity and the program id alone.
pub fn derive_profile_address(identity: &IdentityKey, program_id: &IdentityKey) -> (r: Option<
    (Vec<u8>, u8),
>)
    ensures
        (match r {
            Some(p) => Some((p.0@, p.1)),
            None => None::<(Seq<u8>, u8)>,
        }) == profile_address(*identity, *program_id),
        r matches Some(p) ==> p.0@.len() == 32,
{
    let mut seeds: Vec<Vec<u8>> = Vec::new();
    seeds.push(profile_tag_bytes());
    seeds.push(identity.to_le_bytes());
    let pid = program_id.to_le_bytes();
    proof {
        assert(seeds.deep_view() =~~= profile_seeds(*identity));
    }
    find_pda(&seeds, &pid)
}

/// Derives the storage location of a connection record under the given
/// program id, from the acceptor's identity and the sequence the request
/// froze. The result depends on those inputs alone, so the acceptor can
/// re-derive exactly the location the requester's operation created.
pub fn derive_connection_address(
    acceptor: &IdentityKey,
    sequence: u32,
    program_id: &IdentityKey,
) -> (r: Option<(Vec<u8>, u8)>)
    ensures
        (match r {
            Some(p) => Some((p.0@, p.1)),
            None => None::<(Seq<u8>, u8)>,
        }) == connection_address(*acceptor, sequence, *program_id),
        r matches Some(p) ==> p.0@.len() == 32,
{
    let mut seeds: Vec<Vec<u8>> = Vec::new();
    seeds.push(connection_tag_bytes());
    seeds.push(acceptor.to_le_bytes());
    seeds.push(vstd::bytes::u32_to_le_bytes(sequence));
    let pid = program_id.to_le_bytes();
    proof {
        assert(seeds.deep_view() =~~= connection_seeds(*acceptor, sequence));
    }
    find_pda(&seeds, &pid)
}

} // verus!
