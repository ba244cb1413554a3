//! Derivation of the escrow authority: an identity without a private key, bound to one
//! staking account, that only this program can act as.

use vstd::prelude::*;
use anchor_lang::prelude::Pubkey;
use crate::error::CustomError;
use crate::identity::Identity;

verus! {

/// The bytes of the program's own identity, under which every authority is derived.
pub open spec fn program_id_bytes() -> Seq<u8> {
    seq![
        163u8, 188, 82, 50, 186, 224, 184, 111, 163, 78, 39, 131, 139, 117, 33, 110,
        81, 61, 52, 144, 19, 244, 116, 120, 49, 24, 22, 141, 13, 196, 186, 29,
    ]
}

/// The program's own identity.
pub fn id() -> (program: Identity)
    ensures
        program@ == program_id_bytes(),
{
    let program = Identity {
        bytes: [
            163u8, 188, 82, 50, 186, 224, 184, 111, 163, 78, 39, 131, 139, 117, 33, 110,
            81, 61, 52, 144, 19, 244, 116, 120, 49, 24, 22, 141, 13, 196, 186, 29,
        ],
    };
    program
}

/// The domain tag of escrow authorities: the ASCII text `escrow-authority`.
pub open spec fn escrow_tag() -> Seq<u8> {
    seq![101u8, 115, 99, 114, 111, 119, 45, 97, 117, 116, 104, 111, 114, 105, 116, 121]
}

/// The seeds from which the escrow authority of a staking account is derived: the domain
/// tag, then the address of the staking account.
pub open spec fn escrow_seeds(staking_account: Seq<u8>) -> Seq<Seq<u8>> {
    seq![escrow_tag(), staking_account]
}

/// The address that the runtime derives for a program from a list of seeds, with the
/// discriminator byte it found, or `None` where it finds none.
pub uninterp spec fn program_address(seeds: Seq<Seq<u8>>, program: Seq<u8>) -> Option<(Seq<u8>, u8)>;

/// The escrow authority of a staking account with its discriminator, if one exists.
pub open spec fn escrow_authority(staking_account: Seq<u8>) -> Option<(Seq<u8>, u8)> {
    program_address(escrow_seeds(staking_account), program_id_bytes())
}

/// A list of seeds, seen as the bytes of each.
pub open spec fn seeds_view(seeds: Vec<Vec<u8>>) -> Seq<Seq<u8>> {
    Seq::new(seeds@.len(), |i: int| seeds@[i]@)
}

/// A derived identity and discriminator, seen as bytes.
pub open spec fn derived_view(found: Option<(Identity, u8)>) -> Option<(Seq<u8>, u8)> {
    match found {
        Some((identity, bump)) => Some((identity@, bump)),
        None => None,
    }
}

/// Calls `Pubkey::try_find_program_address`. The result is the derived address and the
/// discriminator the search settled on, named `program_address` of the seeds and the
/// program; the search is a function of these alone. `None` means that no discriminator
/// gave an address, or that the seeds are too many or too long.
#[verifier::external_body]
fn find_program_address(seeds: &Vec<Vec<u8>>, program: &Identity) -> (found: Option<(Identity, u8)>)
    ensures
        derived_view(found) == program_address(seeds_view(*seeds), program@),
{
    let parts: Vec<&[u8]> = seeds.iter().map(|seed| seed.as_slice()).collect();
    Pubkey::try_find_program_address(&parts, &Pubkey::new_from_array(program.bytes))
        .map(|(address, bump)| (Identity { bytes: address.to_bytes() }, bump))
}

/// The seeds of the escrow authority of `staking_account`, as bytes.
pub fn escrow_authority_seeds(staking_account: &Identity) -> (seeds: Vec<Vec<u8>>)
    ensures
        seeds_view(seeds) == escrow_seeds(staking_account@),
{
    let tag: Vec<u8> = vec![
        101u8, 115, 99, 114, 111, 119, 45, 97, 117, 116, 104, 111, 114, 105, 116, 121,
    ];
    let address = staking_account.to_bytes();
    let mut seeds: Vec<Vec<u8>> = Vec::new();
    seeds.push(tag);
    seeds.push(address);
    seeds
}

/// What a derivation yields once the search has ended: the authority and its
/// discriminator, or `DerivationFailed` where the search found none.
pub open spec fn authority_or_failure(found: Option<(Identity, u8)>) -> Result<(Identity, u8), CustomError> {
    match found {
        Some(pair) => Ok(pair),
        None => Err(CustomError::DerivationFailed),
    }
}

/// Reports the outcome of a derivation search as the authority it found or as a failure.
pub fn authority_from_search(found: Option<(Identity, u8)>) -> (r: Result<(Identity, u8), CustomError>)
    ensures
        r == authority_or_failure(found),
{
    match found {
        Some(pair) => Ok(pair),
        None => Err(CustomError::DerivationFailed),
    }
}

/// Searches for the escrow authority of a staking account: the derivation over the
/// seeds of that account, under the program's own identity.
pub fn find_escrow_authority(staking_account: &Identity) -> (found: Option<(Identity, u8)>)
    ensures
        derived_view(found) == escrow_authority(staking_account@),
{
    let seeds = escrow_authority_seeds(staking_account);
    let program = id();
    find_program_address(&seeds, &program)
}

/// Derives the escrow authority of a staking account and the discriminator that goes
/// with it. The result depends on the address alone; it fails with `DerivationFailed`
/// exactly when no discriminator yields an authority.
pub fn derive_escrow_authority(staking_account: &Identity) -> (r: Result<(Identity, u8), CustomError>)
    ensures
        match r {
            Ok((authority, bump)) => escrow_authority(staking_account@) == Some((authority@, bump)),
            Err(e) => e == CustomError::DerivationFailed && escrow_authority(staking_account@) is None,
        },
{
    let found = find_escrow_authority(staking_account);
    authority_from_search(found)
}

/// Whether a search result is exactly the presented identity with the given discriminator.
pub fn search_yields(found: Option<(Identity, u8)>, presented: &Identity, bump: u8) -> (r: bool)
    ensures
        r == (derived_view(found) == Some((presented@, bump))),
{
    match found {
        Some((authority, found_bump)) => authority.same(presented) && found_bump == bump,
        None => false,
    }
}

/// Whether `presented`, with discriminator `bump`, is the escrow authority of
/// `staking_account`: true exactly when the derivation for that account yields them.
pub fn verify_escrow_authority(presented: &Identity, staking_account: &Identity, bump: u8) -> (r: bool)
    ensures
        r == (escrow_authority(staking_account@) == Some((presented@, bump))),
{
    let found = find_escrow_authority(staking_account);
    search_yields(found, presented, bump)
}

/// An escrow authority is bound to the account it was derived for. Where two staking
/// accounts do not derive the same authority and discriminator, what was derived for the
/// one never validates against the other.
pub proof fn lemma_authority_validates_only_where_derived(a: Identity, b: Identity, authority: Identity, bump: u8)
    requires
        escrow_authority(a@) == Some((authority@, bump)),
        escrow_authority(a@) != escrow_authority(b@),
    ensures
        escrow_authority(b@) != Some((authority@, bump)),
{
}

} // verus!
