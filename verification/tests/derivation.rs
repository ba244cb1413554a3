use anchor_lang::prelude::Pubkey;
use rwa_tokenization::derivation::{
    authority_from_search, derive_escrow_authority, escrow_authority_seeds, find_escrow_authority,
    id, search_yields, verify_escrow_authority,
};
use rwa_tokenization::error::CustomError;
use rwa_tokenization::identity::Identity;
use std::str::FromStr;

fn account(tag: u8) -> Identity {
    let mut bytes = [0u8; 32];
    bytes[0] = tag;
    bytes[31] = 7;
    Identity::new(bytes)
}

#[test]
fn program_identity_is_the_declared_address() {
    let declared = Pubkey::from_str("C2A1Q5DjAnLbCAjWhJo3pXBi7UgnLYPc4TDJ5qTSNmpp").unwrap();
    assert_eq!(id().bytes, declared.to_bytes());
}

#[test]
fn escrow_authority_is_the_program_derived_address() {
    let staking = account(1);
    let program = Pubkey::new_from_array(id().bytes);
    let (expected, bump) =
        Pubkey::find_program_address(&[b"escrow-authority", &staking.bytes], &program);
    let derived = derive_escrow_authority(&staking);
    assert_eq!(derived, Ok((Identity::new(expected.to_bytes()), bump)));
    assert_ne!(expected.to_bytes(), staking.bytes);
}

#[test]
fn derivation_is_deterministic() {
    let staking = account(9);
    assert_eq!(derive_escrow_authority(&staking), derive_escrow_authority(&staking));
}

#[test]
fn authority_of_one_account_does_not_validate_against_another() {
    let a = account(1);
    let b = account(2);
    let (authority_a, bump_a) = derive_escrow_authority(&a).unwrap();
    assert!(verify_escrow_authority(&authority_a, &a, bump_a));
    assert!(!verify_escrow_authority(&authority_a, &b, bump_a));
    let (authority_b, bump_b) = derive_escrow_authority(&b).unwrap();
    assert!(!verify_escrow_authority(&authority_b, &a, bump_b));
    assert_ne!(authority_a, authority_b);
}

#[test]
fn verification_rejects_a_wrong_discriminator() {
    let a = account(3);
    let (authority, bump) = derive_escrow_authority(&a).unwrap();
    assert!(!verify_escrow_authority(&authority, &a, bump.wrapping_sub(1)));
    assert!(!verify_escrow_authority(&a, &a, bump));
}

#[test]
fn seeds_are_the_domain_tag_and_the_account_address() {
    let staking = account(4);
    let seeds = escrow_authority_seeds(&staking);
    assert_eq!(seeds, vec![b"escrow-authority".to_vec(), staking.bytes.to_vec()]);
}

#[test]
fn search_finds_what_the_derivation_reports() {
    let staking = account(5);
    let found = find_escrow_authority(&staking);
    assert!(found.is_some());
    assert_eq!(authority_from_search(found), derive_escrow_authority(&staking));
    let (authority, bump) = found.unwrap();
    let program = Pubkey::new_from_array(id().bytes);
    let rebuilt = Pubkey::create_program_address(
        &[b"escrow-authority", &staking.bytes, &[bump]],
        &program,
    )
    .unwrap();
    assert_eq!(authority.bytes, rebuilt.to_bytes());
    assert!(!rebuilt.is_on_curve());
}

#[test]
fn failed_search_is_reported_as_a_failed_derivation() {
    assert_eq!(authority_from_search(None), Err(CustomError::DerivationFailed));
    let pair = (account(1), 254u8);
    assert_eq!(authority_from_search(Some(pair)), Ok(pair));
}

#[test]
fn search_result_matches_only_the_same_identity_and_discriminator() {
    let found = Some((account(1), 254u8));
    assert!(search_yields(found, &account(1), 254));
    assert!(!search_yields(found, &account(1), 253));
    assert!(!search_yields(found, &account(2), 254));
    assert!(!search_yields(None, &account(1), 254));
}
