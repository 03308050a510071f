//! Loader-buffer decoding against its byte layout, and governance-record
//! decoding against the governance library's serialization.

use borsh::BorshSerialize;
use themis::decode::{decode_buffer_header, decode_governance, decode_proposal,
    decode_proposal_transaction, decode_realm, decode_token_owner_record};
use themis::error::GovError;
use themis::model::{VoteThreshold, VoteTipping};
use solana_program::pubkey::Pubkey;
use spl_governance::state::enums::{GovernanceAccountType, InstructionExecutionFlags,
    MintMaxVoteWeightSource, ProposalState, TransactionExecutionStatus, VoteThresholdPercentage,
    VoteTipping as SplVoteTipping};
use spl_governance::state::governance::{GovernanceConfig, GovernanceV2};
use spl_governance::state::proposal::{OptionVoteResult, ProposalOption, ProposalV2, VoteType};
use spl_governance::state::proposal_transaction::{AccountMetaData, InstructionData,
    ProposalTransactionV2};
use spl_governance::state::realm::{RealmConfig, RealmV2};
use spl_governance::state::token_owner_record::TokenOwnerRecordV2;

fn key(n: u8) -> Pubkey {
    Pubkey::new_from_array([n; 32])
}

#[test]
fn buffer_with_authority_decodes() {
    let mut data = vec![1u8, 0, 0, 0, 1];
    data.extend_from_slice(&[7u8; 32]);
    data.extend_from_slice(&[9u8, 9, 9]);
    let header = decode_buffer_header(&data).unwrap();
    assert_eq!(header.authority.unwrap().0, [7u8; 32]);
}

#[test]
fn buffer_without_authority_decodes() {
    let data = vec![1u8, 0, 0, 0, 0];
    let header = decode_buffer_header(&data).unwrap();
    assert!(header.authority.is_none());
}

#[test]
fn buffer_with_other_tag_is_rejected() {
    for tag in [0u8, 2, 3, 255] {
        let mut data = vec![tag, 0, 0, 0, 1];
        data.extend_from_slice(&[7u8; 32]);
        assert!(matches!(decode_buffer_header(&data), Err(GovError::DecodeError)));
    }
    let mixed = vec![1u8, 0, 1, 0, 0];
    assert!(matches!(decode_buffer_header(&mixed), Err(GovError::DecodeError)));
}

#[test]
fn buffer_truncated_is_rejected() {
    assert!(matches!(decode_buffer_header(&vec![1u8, 0, 0, 0]), Err(GovError::DecodeError)));
    let mut short = vec![1u8, 0, 0, 0, 1];
    short.extend_from_slice(&[7u8; 31]);
    assert!(matches!(decode_buffer_header(&short), Err(GovError::DecodeError)));
    assert!(matches!(decode_buffer_header(&Vec::new()), Err(GovError::DecodeError)));
}

#[test]
fn buffer_with_bad_flag_is_rejected() {
    let mut data = vec![1u8, 0, 0, 0, 2];
    data.extend_from_slice(&[7u8; 32]);
    assert!(matches!(decode_buffer_header(&data), Err(GovError::DecodeError)));
}

fn sample_realm(council: Option<Pubkey>) -> RealmV2 {
    RealmV2 {
        account_type: GovernanceAccountType::RealmV2,
        community_mint: key(11),
        config: RealmConfig {
            use_community_voter_weight_addin: false,
            use_max_community_voter_weight_addin: false,
            reserved: [0; 6],
            min_community_weight_to_create_governance: 1,
            community_mint_max_vote_weight_source: MintMaxVoteWeightSource::SupplyFraction(
                10_000_000_000,
            ),
            council_mint: council,
        },
        reserved: [0; 6],
        voting_proposal_count: 0,
        authority: Some(key(12)),
        name: "realm".to_string(),
        reserved_v2: [0; 128],
    }
}

#[test]
fn realm_record_roundtrips() {
    let bytes = sample_realm(Some(key(13))).try_to_vec().unwrap();
    let realm = decode_realm(&bytes).unwrap();
    assert_eq!(realm.community_mint.0, key(11).to_bytes());
    assert_eq!(realm.council_mint.unwrap().0, key(13).to_bytes());

    let bytes = sample_realm(None).try_to_vec().unwrap();
    let realm = decode_realm(&bytes).unwrap();
    assert!(realm.council_mint.is_none());
}

#[test]
fn garbage_realm_bytes_are_rejected() {
    assert!(matches!(decode_realm(&vec![255u8, 1, 2]), Err(GovError::DecodeError)));
}

fn sample_config() -> GovernanceConfig {
    GovernanceConfig {
        vote_threshold_percentage: VoteThresholdPercentage::YesVote(60),
        min_community_weight_to_create_proposal: 10,
        min_transaction_hold_up_time: 20,
        max_voting_time: 259200,
        vote_tipping: SplVoteTipping::Strict,
        proposal_cool_off_time: 0,
        min_council_weight_to_create_proposal: 1,
    }
}

#[test]
fn governance_record_roundtrips() {
    let governance = GovernanceV2 {
        account_type: GovernanceAccountType::ProgramGovernanceV2,
        realm: key(2),
        governed_account: key(3),
        proposals_count: 7,
        config: sample_config(),
        reserved: [0; 6],
        voting_proposal_count: 1,
        reserved_v2: [0; 128],
    };
    let bytes = governance.try_to_vec().unwrap();
    let decoded = decode_governance(&bytes).unwrap();
    assert_eq!(decoded.proposals_count, 7);
    assert_eq!(decoded.config.vote_threshold, VoteThreshold::YesVote(60));
    assert_eq!(decoded.config.min_community_weight_to_create_proposal, 10);
    assert_eq!(decoded.config.min_transaction_hold_up_time, 20);
    assert_eq!(decoded.config.max_voting_time, 259200);
    assert_eq!(decoded.config.vote_tipping, VoteTipping::Strict);
    assert_eq!(decoded.config.proposal_cool_off_time, 0);
    assert_eq!(decoded.config.min_council_weight_to_create_proposal, 1);
}

#[test]
fn garbage_governance_bytes_are_rejected() {
    assert!(matches!(decode_governance(&vec![9u8]), Err(GovError::DecodeError)));
}

#[test]
fn token_owner_record_roundtrips() {
    let record = TokenOwnerRecordV2 {
        account_type: GovernanceAccountType::TokenOwnerRecordV2,
        realm: key(2),
        governing_token_mint: key(3),
        governing_token_owner: key(21),
        governing_token_deposit_amount: 5,
        unrelinquished_votes_count: 0,
        total_votes_count: 0,
        outstanding_proposal_count: 0,
        reserved: [0; 7],
        governance_delegate: None,
        reserved_v2: [0; 128],
    };
    let bytes = record.try_to_vec().unwrap();
    let decoded = decode_token_owner_record(&bytes).unwrap();
    assert_eq!(decoded.governing_token_owner.0, key(21).to_bytes());
}

#[test]
fn proposal_record_roundtrips() {
    let proposal = ProposalV2 {
        account_type: GovernanceAccountType::ProposalV2,
        governance: key(5),
        governing_token_mint: key(3),
        state: ProposalState::Succeeded,
        token_owner_record: key(22),
        signatories_count: 1,
        signatories_signed_off_count: 1,
        vote_type: VoteType::SingleChoice,
        options: vec![ProposalOption {
            label: "single_vote".to_string(),
            vote_weight: 0,
            vote_result: OptionVoteResult::Succeeded,
            transactions_executed_count: 0,
            transactions_count: 1,
            transactions_next_index: 3,
        }],
        deny_vote_weight: Some(0),
        veto_vote_weight: None,
        abstain_vote_weight: None,
        start_voting_at: None,
        draft_at: 0,
        signing_off_at: None,
        voting_at: None,
        voting_at_slot: None,
        voting_completed_at: None,
        executing_at: None,
        closed_at: None,
        execution_flags: InstructionExecutionFlags::None,
        max_vote_weight: None,
        max_voting_time: None,
        vote_threshold_percentage: None,
        reserved: [0; 64],
        name: "Upgrade v2".to_string(),
        description_link: "bump version".to_string(),
    };
    let bytes = proposal.try_to_vec().unwrap();
    let decoded = decode_proposal(&bytes).unwrap();
    assert_eq!(decoded.token_owner_record.0, key(22).to_bytes());
    assert_eq!(decoded.options.len(), 1);
    assert_eq!(decoded.options[0].transactions_next_index, 3);
}

#[test]
fn proposal_transaction_record_roundtrips() {
    let record = ProposalTransactionV2 {
        account_type: GovernanceAccountType::ProposalTransactionV2,
        proposal: key(9),
        option_index: 0,
        transaction_index: 0,
        hold_up_time: 0,
        instructions: vec![InstructionData {
            program_id: key(30),
            accounts: vec![
                AccountMetaData { pubkey: key(31), is_signer: true, is_writable: false },
                AccountMetaData { pubkey: key(32), is_signer: false, is_writable: true },
            ],
            data: vec![3, 0, 0, 0],
        }],
        executed_at: None,
        execution_status: TransactionExecutionStatus::None,
        reserved_v2: [0; 8],
    };
    let bytes = record.try_to_vec().unwrap();
    let decoded = decode_proposal_transaction(&bytes).unwrap();
    assert_eq!(decoded.instructions.len(), 1);
    let inner = &decoded.instructions[0];
    assert_eq!(inner.program_id.0, key(30).to_bytes());
    assert_eq!(inner.accounts.len(), 2);
    assert_eq!(inner.accounts[0].pubkey.0, key(31).to_bytes());
    assert!(inner.accounts[0].is_signer);
    assert!(!inner.accounts[0].is_writable);
    assert_eq!(inner.accounts[1].pubkey.0, key(32).to_bytes());
    assert!(!inner.accounts[1].is_signer);
    assert!(inner.accounts[1].is_writable);
    assert_eq!(inner.data, vec![3, 0, 0, 0]);
}
