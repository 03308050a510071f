//! The per-action instruction lists against the governance library's own
//! encoders, on concrete values.

use themis::actions::{build_close_instructions, close_buffers, deposit, execute,
    execute_option_index, ledger_vote, propose, proposal_target_query, resolve_proposal_target,
    update, vote, withdraw, CloseBuffersArgs, ProposeArgs, UpdateArgs};
use themis::addr::Addr;
use themis::error::GovError;
use themis::instruction::create_upgrade_program_instruction;
use themis::model::{GovConfig, GovCtx, Governance, Instr, LedgerVote, MintType, Proposal,
    ProposalOption, ProposalTransaction, Realm, TokenOwnerRecord, UpgradeableBuffer, VoteChoice,
    VoteKind, VoteThreshold, VoteTipping, AccountEntry};
use solana_program::instruction::{AccountMeta, Instruction};
use solana_program::pubkey::Pubkey;
use spl_governance::state::enums::{VoteThresholdPercentage, VoteTipping as SplVoteTipping};
use spl_governance::state::governance::GovernanceConfig;
use spl_governance::state::proposal::VoteType;
use spl_governance::state::proposal_transaction::InstructionData;
use spl_governance::state::vote_record::{Vote as SplVote, VoteChoice as SplVoteChoice};

fn addr(n: u8) -> Addr {
    Addr([n; 32])
}

fn pk(a: &Addr) -> Pubkey {
    Pubkey::new_from_array(a.0)
}

fn ctx() -> GovCtx {
    GovCtx {
        program: addr(1),
        realm: addr(2),
        governance: addr(5),
        target_program: addr(6),
        target_program_data: addr(7),
    }
}

fn realm_with_council() -> Realm {
    Realm { community_mint: addr(11), council_mint: Some(addr(13)) }
}

fn governance_at(count: u32) -> Governance {
    Governance { config: lib_config(), proposals_count: count }
}

fn lib_config() -> GovConfig {
    GovConfig {
        vote_threshold: VoteThreshold::YesVote(60),
        min_community_weight_to_create_proposal: 10,
        min_transaction_hold_up_time: 20,
        max_voting_time: 259200,
        vote_tipping: VoteTipping::Strict,
        proposal_cool_off_time: 0,
        min_council_weight_to_create_proposal: 1,
    }
}

fn spl_config() -> GovernanceConfig {
    GovernanceConfig {
        vote_threshold_percentage: VoteThresholdPercentage::YesVote(60),
        min_community_weight_to_create_proposal: 10,
        min_transaction_hold_up_time: 20,
        max_voting_time: 259200,
        vote_tipping: SplVoteTipping::Strict,
        proposal_cool_off_time: 0,
        min_council_weight_to_create_proposal: 1,
    }
}

fn assert_same(ix: &Instr, expected: &Instruction) {
    assert_eq!(ix.program_id.0, expected.program_id.to_bytes());
    assert_eq!(ix.accounts.len(), expected.accounts.len());
    for (a, b) in ix.accounts.iter().zip(expected.accounts.iter()) {
        assert_eq!(a.pubkey.0, b.pubkey.to_bytes());
        assert_eq!(a.is_signer, b.is_signer);
        assert_eq!(a.is_writable, b.is_writable);
    }
    assert_eq!(ix.data, expected.data);
}

fn upgrade_instruction_data(source_buffer: &Addr, spill: &Addr, authority: &Addr) -> InstructionData {
    InstructionData {
        program_id: solana_program::bpf_loader_upgradeable::id(),
        accounts: vec![
            account_meta(&addr(7), false, true),
            account_meta(&addr(6), false, true),
            account_meta(source_buffer, false, true),
            account_meta(spill, false, true),
            account_meta_from(solana_program::sysvar::rent::id(), false, false),
            account_meta_from(solana_program::sysvar::clock::id(), false, false),
            account_meta(authority, true, true),
        ],
        data: vec![3, 0, 0, 0],
    }
}

fn account_meta(a: &Addr, is_signer: bool, is_writable: bool) -> spl_governance::state::proposal_transaction::AccountMetaData {
    account_meta_from(pk(a), is_signer, is_writable)
}

fn account_meta_from(pubkey: Pubkey, is_signer: bool, is_writable: bool) -> spl_governance::state::proposal_transaction::AccountMetaData {
    spl_governance::state::proposal_transaction::AccountMetaData { pubkey, is_signer, is_writable }
}

#[test]
fn upgrade_instruction_has_exact_layout() {
    let ix = create_upgrade_program_instruction(&addr(7), &addr(6), &addr(20), &addr(8), &addr(5));
    assert_eq!(ix.program_id.0, solana_program::bpf_loader_upgradeable::id().to_bytes());
    assert_eq!(ix.data, vec![3, 0, 0, 0]);
    assert_eq!(ix.accounts.len(), 7);
    let expected: Vec<(Addr, bool, bool)> = vec![
        (addr(7), false, true),
        (addr(6), false, true),
        (addr(20), false, true),
        (addr(8), false, true),
        (Addr(solana_program::sysvar::rent::id().to_bytes()), false, false),
        (Addr(solana_program::sysvar::clock::id().to_bytes()), false, false),
        (addr(5), true, true),
    ];
    for (entry, (key, is_signer, is_writable)) in ix.accounts.iter().zip(expected.iter()) {
        assert_eq!(entry.pubkey.0, key.0);
        assert_eq!(entry.is_signer, *is_signer);
        assert_eq!(entry.is_writable, *is_writable);
    }
}

#[test]
fn propose_builds_the_four_instruction_bundle() {
    let ctx = ctx();
    let payer = addr(4);
    let args = ProposeArgs {
        source_buffer: addr(20),
        spill_account: None,
        name: "Upgrade v2".to_string(),
        description: "bump version".to_string(),
        mint_type: MintType::Council,
        vote_kind: VoteKind::SingleChoice,
        options: vec!["single_vote".to_string()],
    };
    let bundle = propose(&ctx, &payer, &args, &realm_with_council(), &governance_at(7)).unwrap();
    assert_eq!(bundle.len(), 4);

    let mint = pk(&addr(13));
    let tor = spl_governance::state::token_owner_record::get_token_owner_record_address(
        &pk(&ctx.program), &pk(&ctx.realm), &mint, &pk(&payer));
    let proposal = spl_governance::state::proposal::get_proposal_address(
        &pk(&ctx.program), &pk(&ctx.governance), &mint, &7u32.to_le_bytes());

    let expected_create = spl_governance::instruction::create_proposal(
        &pk(&ctx.program), &pk(&ctx.governance), &tor, &pk(&payer), &pk(&payer), None,
        &pk(&ctx.realm), "Upgrade v2".to_string(), "bump version".to_string(), &mint,
        VoteType::SingleChoice, vec!["single_vote".to_string()], true, 7);
    assert_same(&bundle[0], &expected_create);

    let expected_add = spl_governance::instruction::add_signatory(
        &pk(&ctx.program), &proposal, &tor, &pk(&payer), &pk(&payer), &pk(&payer));
    assert_same(&bundle[1], &expected_add);

    // With no spill account supplied, the payer receives the leftover
    // buffer balance, and the governance account signs the upgrade.
    let upgrade = upgrade_instruction_data(&addr(20), &payer, &ctx.governance);
    let expected_insert = spl_governance::instruction::insert_transaction(
        &pk(&ctx.program), &pk(&ctx.governance), &proposal, &tor, &pk(&payer), &pk(&payer), 0, 0,
        0, vec![upgrade]);
    assert_same(&bundle[2], &expected_insert);

    let expected_sign_off = spl_governance::instruction::sign_off_proposal(
        &pk(&ctx.program), &pk(&ctx.realm), &pk(&ctx.governance), &proposal, &pk(&payer), None);
    assert_same(&bundle[3], &expected_sign_off);
}

#[test]
fn propose_without_council_mint_is_a_configuration_error() {
    let realm = Realm { community_mint: addr(11), council_mint: None };
    let args = ProposeArgs {
        source_buffer: addr(20),
        spill_account: None,
        name: "Upgrade v2".to_string(),
        description: "bump version".to_string(),
        mint_type: MintType::Council,
        vote_kind: VoteKind::SingleChoice,
        options: vec!["single_vote".to_string()],
    };
    let r = propose(&ctx(), &addr(4), &args, &realm, &governance_at(7));
    assert!(matches!(r, Err(GovError::ConfigurationError)));
}

#[test]
fn close_buffers_caps_the_batch_at_ten() {
    let ctx = ctx();
    let payer = addr(4);
    let buffers: Vec<UpgradeableBuffer> = (0..15)
        .map(|i| UpgradeableBuffer {
            address: addr(100 + i),
            authority: addr(41),
            data_len: 37,
            lamports: 1000,
        })
        .collect();
    let args = CloseBuffersArgs {
        authority: addr(41),
        recipient: addr(40),
        spill_account: None,
        name: "close".to_string(),
        description: "close buffers".to_string(),
        mint_type: MintType::Member,
        vote_kind: VoteKind::SingleChoice,
        options: vec!["approve".to_string()],
    };
    let bundle = close_buffers(&ctx, &payer, &args, &realm_with_council(), &governance_at(3),
        &buffers).unwrap();
    assert_eq!(bundle.len(), 4);

    let closes: Vec<InstructionData> = (0..10)
        .map(|i| {
            InstructionData::from(solana_program::bpf_loader_upgradeable::close_any(
                &pk(&addr(100 + i)), &pk(&addr(40)), Some(&pk(&addr(41))), None))
        })
        .collect();
    let mint = pk(&addr(11));
    let tor = spl_governance::state::token_owner_record::get_token_owner_record_address(
        &pk(&ctx.program), &pk(&ctx.realm), &mint, &pk(&payer));
    let proposal = spl_governance::state::proposal::get_proposal_address(
        &pk(&ctx.program), &pk(&ctx.governance), &mint, &3u32.to_le_bytes());
    let expected_insert = spl_governance::instruction::insert_transaction(
        &pk(&ctx.program), &pk(&ctx.governance), &proposal, &tor, &pk(&payer), &pk(&payer), 0, 0,
        0, closes);
    assert_same(&bundle[2], &expected_insert);
}

#[test]
fn close_instruction_batch_never_exceeds_ten() {
    let buffers: Vec<UpgradeableBuffer> = (0..15)
        .map(|i| UpgradeableBuffer {
            address: addr(100 + i),
            authority: addr(41),
            data_len: 37,
            lamports: 1000,
        })
        .collect();
    let batch = build_close_instructions(&buffers, &addr(40), &addr(41));
    assert_eq!(batch.len(), 10);
    for (i, ix) in batch.iter().enumerate() {
        let expected = solana_program::bpf_loader_upgradeable::close_any(
            &pk(&addr(100 + i as u8)), &pk(&addr(40)), Some(&pk(&addr(41))), None);
        assert_same(ix, &expected);
    }
    let two: Vec<UpgradeableBuffer> = buffers.into_iter().take(2).collect();
    assert_eq!(build_close_instructions(&two, &addr(40), &addr(41)).len(), 2);
}

#[test]
fn option_index_is_recovered_from_the_next_index_counter() {
    let proposal = Proposal {
        token_owner_record: addr(22),
        options: vec![ProposalOption { transactions_next_index: 3 }],
    };
    assert_eq!(execute_option_index(&proposal), Ok(2));

    let empty = Proposal { token_owner_record: addr(22), options: Vec::new() };
    assert_eq!(execute_option_index(&empty), Err(GovError::UsageError));

    let unpopulated = Proposal {
        token_owner_record: addr(22),
        options: vec![ProposalOption { transactions_next_index: 0 }],
    };
    assert_eq!(execute_option_index(&unpopulated), Err(GovError::UsageError));
}

#[test]
fn option_index_truncates_to_the_seed_byte() {
    let at = |next: u16| Proposal {
        token_owner_record: addr(22),
        options: vec![ProposalOption { transactions_next_index: next }],
    };
    assert_eq!(execute_option_index(&at(1)), Ok(0));
    assert_eq!(execute_option_index(&at(256)), Ok(255));
    assert_eq!(execute_option_index(&at(257)), Ok(0));
}

#[test]
fn execute_unsigns_the_governance_identity() {
    let ctx = ctx();
    let proposal_id = addr(60);
    let ptx_addr = addr(61);
    let record = ProposalTransaction {
        instructions: vec![Instr {
            program_id: addr(30),
            accounts: vec![
                AccountEntry { pubkey: ctx.governance, is_signer: true, is_writable: false },
                AccountEntry { pubkey: addr(31), is_signer: true, is_writable: true },
            ],
            data: vec![3, 0, 0, 0],
        }],
    };
    let ix = execute(&ctx, &proposal_id, &ptx_addr, &record).unwrap();
    let metas = vec![
        AccountMeta { pubkey: pk(&ctx.governance), is_signer: false, is_writable: false },
        AccountMeta { pubkey: pk(&addr(31)), is_signer: true, is_writable: true },
    ];
    let expected = spl_governance::instruction::execute_transaction(
        &pk(&ctx.program), &pk(&ctx.governance), &pk(&proposal_id), &pk(&ptx_addr), &pk(&addr(30)),
        &metas);
    assert_same(&ix, &expected);
}

#[test]
fn execute_rejects_multi_instruction_records() {
    let inner = Instr { program_id: addr(30), accounts: Vec::new(), data: Vec::new() };
    let record = ProposalTransaction { instructions: vec![inner.clone(), inner] };
    let r = execute(&ctx(), &addr(60), &addr(61), &record);
    assert!(matches!(r, Err(GovError::UsageError)));
    let empty = ProposalTransaction { instructions: Vec::new() };
    let r = execute(&ctx(), &addr(60), &addr(61), &empty);
    assert!(matches!(r, Err(GovError::UsageError)));
}

#[test]
fn update_with_no_overrides_keeps_the_configuration() {
    let ctx = ctx();
    let args = UpdateArgs {
        vote_threshold_percentage: None,
        min_council_weight_to_create_proposal: None,
        min_transaction_hold_up_time: None,
        max_voting_time: None,
        proposal_cool_off_time: None,
        min_community_weight_to_create_proposal: None,
    };
    let ix = update(&ctx, &lib_config(), &args);
    let expected = spl_governance::instruction::set_governance_config(
        &pk(&ctx.program), &pk(&ctx.governance), spl_config());
    assert_same(&ix, &expected);
}

#[test]
fn update_with_one_override_changes_only_that_field() {
    let ctx = ctx();
    let args = UpdateArgs {
        vote_threshold_percentage: None,
        min_council_weight_to_create_proposal: None,
        min_transaction_hold_up_time: None,
        max_voting_time: Some(999),
        proposal_cool_off_time: None,
        min_community_weight_to_create_proposal: None,
    };
    let ix = update(&ctx, &lib_config(), &args);
    let mut patched = spl_config();
    patched.max_voting_time = 999;
    let expected = spl_governance::instruction::set_governance_config(
        &pk(&ctx.program), &pk(&ctx.governance), patched);
    assert_same(&ix, &expected);
}

#[test]
fn update_threshold_override_becomes_a_yes_vote_threshold() {
    let ctx = ctx();
    let args = UpdateArgs {
        vote_threshold_percentage: Some(75),
        min_council_weight_to_create_proposal: None,
        min_transaction_hold_up_time: None,
        max_voting_time: None,
        proposal_cool_off_time: None,
        min_community_weight_to_create_proposal: None,
    };
    let ix = update(&ctx, &lib_config(), &args);
    let mut patched = spl_config();
    patched.vote_threshold_percentage = VoteThresholdPercentage::YesVote(75);
    let expected = spl_governance::instruction::set_governance_config(
        &pk(&ctx.program), &pk(&ctx.governance), patched);
    assert_same(&ix, &expected);
}

#[test]
fn missing_proposal_target_is_a_usage_error_before_any_fetch() {
    assert_eq!(proposal_target_query(false, &None), Err(GovError::UsageError));
    assert_eq!(proposal_target_query(true, &None), Ok(true));
    assert_eq!(proposal_target_query(false, &Some(addr(70))), Ok(false));
}

#[test]
fn proposal_target_resolution() {
    let ctx = ctx();
    let mint = addr(13);
    let explicit = resolve_proposal_target(&ctx, &mint, false, &Some(addr(70)), &None).unwrap();
    assert_eq!(explicit.0, addr(70).0);

    let latest = resolve_proposal_target(&ctx, &mint, true, &None,
        &Some(governance_at(5))).unwrap();
    let expected = spl_governance::state::proposal::get_proposal_address(
        &pk(&ctx.program), &pk(&ctx.governance), &pk(&mint), &4u32.to_le_bytes());
    assert_eq!(latest.0, expected.to_bytes());

    let none_yet = resolve_proposal_target(&ctx, &mint, true, &None, &Some(governance_at(0)));
    assert!(matches!(none_yet, Err(GovError::UsageError)));

    let nothing = resolve_proposal_target(&ctx, &mint, false, &None, &None);
    assert!(matches!(nothing, Err(GovError::UsageError)));
}

#[test]
fn vote_yes_builds_one_cast_vote_instruction() {
    let ctx = ctx();
    let mint = addr(13);
    let proposal_id = addr(70);
    let proposal_owner = TokenOwnerRecord { governing_token_owner: addr(21) };
    let voter = addr(4);
    let ix = vote(&ctx, &mint, &proposal_id, &proposal_owner.governing_token_owner, &voter,
        VoteChoice::Yes);
    let por = spl_governance::state::token_owner_record::get_token_owner_record_address(
        &pk(&ctx.program), &pk(&ctx.realm), &pk(&mint), &pk(&addr(21)));
    let vtor = spl_governance::state::token_owner_record::get_token_owner_record_address(
        &pk(&ctx.program), &pk(&ctx.realm), &pk(&mint), &pk(&voter));
    let expected = spl_governance::instruction::cast_vote(
        &pk(&ctx.program), &pk(&ctx.realm), &pk(&ctx.governance), &pk(&proposal_id), &por, &vtor,
        &pk(&voter), &pk(&mint), &pk(&voter), None, None,
        SplVote::Approve(vec![SplVoteChoice { rank: 0, weight_percentage: 100 }]));
    assert_same(&ix, &expected);
}

#[test]
fn vote_no_is_a_denial() {
    let ctx = ctx();
    let ix = vote(&ctx, &addr(13), &addr(70), &addr(21), &addr(4), VoteChoice::No);
    let por = spl_governance::state::token_owner_record::get_token_owner_record_address(
        &pk(&ctx.program), &pk(&ctx.realm), &pk(&addr(13)), &pk(&addr(21)));
    let vtor = spl_governance::state::token_owner_record::get_token_owner_record_address(
        &pk(&ctx.program), &pk(&ctx.realm), &pk(&addr(13)), &pk(&addr(4)));
    let expected = spl_governance::instruction::cast_vote(
        &pk(&ctx.program), &pk(&ctx.realm), &pk(&ctx.governance), &pk(&addr(70)), &por, &vtor,
        &pk(&addr(4)), &pk(&addr(13)), &pk(&addr(4)), None, None, SplVote::Deny);
    assert_same(&ix, &expected);
    match ledger_vote(VoteChoice::No) {
        LedgerVote::Deny => {},
        other => panic!("unexpected vote encoding: {:?}", other),
    }
}

#[test]
fn deposit_builds_the_library_instruction() {
    let ctx = ctx();
    let ix = deposit(&ctx, &addr(4), &addr(50), 42, &realm_with_council(),
        MintType::Member).unwrap();
    let expected = spl_governance::instruction::deposit_governing_tokens(
        &pk(&ctx.program), &pk(&ctx.realm), &pk(&addr(50)), &pk(&addr(4)), &pk(&addr(4)),
        &pk(&addr(4)), 42, &pk(&addr(11)));
    assert_same(&ix, &expected);
}

#[test]
fn withdraw_builds_the_library_instruction() {
    let ctx = ctx();
    let ix = withdraw(&ctx, &addr(4), &addr(51), &realm_with_council(),
        MintType::Council).unwrap();
    let expected = spl_governance::instruction::withdraw_governing_tokens(
        &pk(&ctx.program), &pk(&ctx.realm), &pk(&addr(51)), &pk(&addr(4)), &pk(&addr(13)));
    assert_same(&ix, &expected);
}

#[test]
fn deposit_without_council_mint_is_a_configuration_error() {
    let realm = Realm { community_mint: addr(11), council_mint: None };
    let r = deposit(&ctx(), &addr(4), &addr(50), 42, &realm, MintType::Council);
    assert!(matches!(r, Err(GovError::ConfigurationError)));
    let r = withdraw(&ctx(), &addr(4), &addr(51), &realm, MintType::Council);
    assert!(matches!(r, Err(GovError::ConfigurationError)));
}
