//! Address derivation agrees with the governance library's own
//! derivation, is deterministic, and separates distinct seed sets.

use themis::addr::{bpf_loader_upgradeable_id, clock_sysvar_id, rent_sysvar_id, Addr};
use themis::derive::{proposal_address, proposal_transaction_address, token_owner_record_address};

fn addr(n: u8) -> Addr {
    Addr([n; 32])
}

fn pk(a: &Addr) -> solana_program::pubkey::Pubkey {
    solana_program::pubkey::Pubkey::new_from_array(a.0)
}

#[test]
fn token_owner_record_address_matches_library() {
    let program = addr(1);
    let realm = addr(2);
    let mint = addr(3);
    let owner = addr(4);
    let derived = token_owner_record_address(&program, &realm, &mint, &owner);
    let expected = spl_governance::state::token_owner_record::get_token_owner_record_address(
        &pk(&program),
        &pk(&realm),
        &pk(&mint),
        &pk(&owner),
    );
    assert_eq!(derived.0, expected.to_bytes());
}

#[test]
fn proposal_address_matches_library() {
    let program = addr(1);
    let governance = addr(5);
    let mint = addr(3);
    let index: u32 = 258;
    let derived = proposal_address(&program, &governance, &mint, index);
    let expected = spl_governance::state::proposal::get_proposal_address(
        &pk(&program),
        &pk(&governance),
        &pk(&mint),
        &index.to_le_bytes(),
    );
    assert_eq!(derived.0, expected.to_bytes());
}

#[test]
fn proposal_transaction_address_matches_library() {
    let program = addr(1);
    let proposal = addr(9);
    let derived = proposal_transaction_address(&program, &proposal, 2, 0);
    let expected =
        spl_governance::state::proposal_transaction::get_proposal_transaction_address(
            &pk(&program),
            &pk(&proposal),
            &2u8.to_le_bytes(),
            &0u16.to_le_bytes(),
        );
    assert_eq!(derived.0, expected.to_bytes());
}

#[test]
fn derivation_is_deterministic() {
    let program = addr(1);
    let realm = addr(2);
    let mint = addr(3);
    let owner = addr(4);
    let first = token_owner_record_address(&program, &realm, &mint, &owner);
    let second = token_owner_record_address(&program, &realm, &mint, &owner);
    assert_eq!(first.0, second.0);
    let p1 = proposal_address(&program, &realm, &mint, 7);
    let p2 = proposal_address(&program, &realm, &mint, 7);
    assert_eq!(p1.0, p2.0);
}

#[test]
fn distinct_seeds_give_distinct_addresses() {
    let program = addr(1);
    let realm = addr(2);
    let mint = addr(3);
    let owner = addr(4);
    let base = token_owner_record_address(&program, &realm, &mint, &owner);
    let mut owner_changed = owner;
    owner_changed.0[31] ^= 1;
    let with_other_owner = token_owner_record_address(&program, &realm, &mint, &owner_changed);
    assert_ne!(base.0, with_other_owner.0);
    let mut mint_changed = mint;
    mint_changed.0[0] ^= 1;
    let with_other_mint = token_owner_record_address(&program, &realm, &mint_changed, &owner);
    assert_ne!(base.0, with_other_mint.0);
    let with_other_program = token_owner_record_address(&addr(8), &realm, &mint, &owner);
    assert_ne!(base.0, with_other_program.0);
}

#[test]
fn largest_proposal_index_matches_library() {
    let program = addr(1);
    let governance = addr(5);
    let mint = addr(3);
    let derived = proposal_address(&program, &governance, &mint, u32::MAX);
    let expected = spl_governance::state::proposal::get_proposal_address(
        &pk(&program),
        &pk(&governance),
        &pk(&mint),
        &u32::MAX.to_le_bytes(),
    );
    assert_eq!(derived.0, expected.to_bytes());
}

#[test]
fn consecutive_proposal_indices_give_distinct_addresses() {
    let program = addr(1);
    let governance = addr(5);
    let mint = addr(3);
    let at_zero = proposal_address(&program, &governance, &mint, 0);
    let at_one = proposal_address(&program, &governance, &mint, 1);
    assert_ne!(at_zero.0, at_one.0);
}

#[test]
fn known_identities_match_library() {
    assert_eq!(
        bpf_loader_upgradeable_id().0,
        solana_program::bpf_loader_upgradeable::id().to_bytes()
    );
    assert_eq!(rent_sysvar_id().0, solana_program::sysvar::rent::id().to_bytes());
    assert_eq!(clock_sysvar_id().0, solana_program::sysvar::clock::id().to_bytes());
}
