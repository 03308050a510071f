//! Single-instruction builders.
//!
//! Each governance instruction is encoded by the governance client
//! library; its result is a pure function of the arguments and is named
//! here so that the action-level builders can pin their output to it. The
//! loader's close instruction has a layout small enough to state exactly.

use vstd::prelude::*;
use crate::addr::{Addr, spec_bpf_loader_upgradeable_id};
use crate::model::{AccountEntry, AccountEntryView, ChoiceWeight, GovConfig, Instr, InstrView,
    LedgerVote, LedgerVoteView, VoteKind, VoteThreshold, VoteTipping};
use crate::spl::{instr_from, pk};
use solana_program::bpf_loader_upgradeable::close_any;
use spl_governance::instruction::{add_signatory, cast_vote, create_proposal,
    deposit_governing_tokens, execute_transaction, insert_transaction, set_governance_config,
    sign_off_proposal, withdraw_governing_tokens};
use spl_governance::state::enums::VoteThresholdPercentage as SplThreshold;
use spl_governance::state::enums::VoteTipping as SplTipping;
use spl_governance::state::governance::GovernanceConfig as SplGovConfig;
use spl_governance::state::proposal::VoteType as SplVoteType;
use spl_governance::state::proposal_transaction::{AccountMetaData, InstructionData};
use spl_governance::state::vote_record::Vote as SplVote;
use spl_governance::state::vote_record::VoteChoice as SplVoteChoice;
use solana_program::instruction::AccountMeta;

verus! {

/// The create-proposal instruction for the given accounts and arguments.
pub uninterp spec fn create_proposal_ix_of(
    program: Seq<u8>,
    governance: Seq<u8>,
    proposal_owner_record: Seq<u8>,
    governance_authority: Seq<u8>,
    payer: Seq<u8>,
    voter_weight_record: Option<Seq<u8>>,
    realm: Seq<u8>,
    name: Seq<char>,
    description: Seq<char>,
    mint: Seq<u8>,
    vote_kind: VoteKind,
    options: Seq<Seq<char>>,
    use_deny_option: bool,
    proposal_index: u32,
) -> InstrView;

/// The add-signatory instruction for the given accounts.
pub uninterp spec fn add_signatory_ix_of(
    program: Seq<u8>,
    proposal: Seq<u8>,
    token_owner_record: Seq<u8>,
    governance_authority: Seq<u8>,
    payer: Seq<u8>,
    signatory: Seq<u8>,
) -> InstrView;

/// The insert-transaction instruction attaching `instructions` at
/// (option_index, index) with the given hold-up time.
pub uninterp spec fn insert_transaction_ix_of(
    program: Seq<u8>,
    governance: Seq<u8>,
    proposal: Seq<u8>,
    token_owner_record: Seq<u8>,
    governance_authority: Seq<u8>,
    payer: Seq<u8>,
    option_index: u8,
    index: u16,
    hold_up_time: u32,
    instructions: Seq<InstrView>,
) -> InstrView;

/// The sign-off-proposal instruction for the given accounts.
pub uninterp spec fn sign_off_ix_of(
    program: Seq<u8>,
    realm: Seq<u8>,
    governance: Seq<u8>,
    proposal: Seq<u8>,
    signatory: Seq<u8>,
    proposal_owner_record: Option<Seq<u8>>,
) -> InstrView;

/// The cast-vote instruction carrying `vote`.
pub uninterp spec fn cast_vote_ix_of(
    program: Seq<u8>,
    realm: Seq<u8>,
    governance: Seq<u8>,
    proposal: Seq<u8>,
    proposal_owner_record: Seq<u8>,
    voter_token_owner_record: Seq<u8>,
    governance_authority: Seq<u8>,
    mint: Seq<u8>,
    payer: Seq<u8>,
    voter_weight_record: Option<Seq<u8>>,
    max_voter_weight_record: Option<Seq<u8>>,
    vote: LedgerVoteView,
) -> InstrView;

/// The execute-transaction instruction replaying the recorded instruction
/// with the given account list.
pub uninterp spec fn execute_transaction_ix_of(
    program: Seq<u8>,
    governance: Seq<u8>,
    proposal: Seq<u8>,
    proposal_transaction: Seq<u8>,
    instruction_program_id: Seq<u8>,
    instruction_accounts: Seq<AccountEntryView>,
) -> InstrView;

/// The deposit-governing-tokens instruction for `amount` of `mint`.
pub uninterp spec fn deposit_ix_of(
    program: Seq<u8>,
    realm: Seq<u8>,
    source: Seq<u8>,
    owner: Seq<u8>,
    transfer_authority: Seq<u8>,
    payer: Seq<u8>,
    amount: u64,
    mint: Seq<u8>,
) -> InstrView;

/// The withdraw-governing-tokens instruction for `mint`.
pub uninterp spec fn withdraw_ix_of(
    program: Seq<u8>,
    realm: Seq<u8>,
    destination: Seq<u8>,
    owner: Seq<u8>,
    mint: Seq<u8>,
) -> InstrView;

/// The set-governance-config instruction carrying `config`.
pub uninterp spec fn set_governance_config_ix_of(
    program: Seq<u8>,
    governance: Seq<u8>,
    config: GovConfig,
) -> InstrView;

/// Relies on spl_governance::instruction::create_proposal: the encoded
/// instruction depends on the arguments alone; the result is converted
/// field for field.
#[verifier::external_body]
pub(crate) fn create_proposal_call(
    program: &Addr,
    governance: &Addr,
    proposal_owner_record: &Addr,
    governance_authority: &Addr,
    payer: &Addr,
    voter_weight_record: Option<&Addr>,
    realm: &Addr,
    name: &String,
    description: &String,
    mint: &Addr,
    vote_kind: &VoteKind,
    options: &Vec<String>,
    use_deny_option: bool,
    proposal_index: u32,
) -> (r: Instr)
    ensures
        r@ == create_proposal_ix_of(program@, governance@, proposal_owner_record@,
            governance_authority@, payer@, voter_weight_record.deep_view(), realm@, name@,
            description@, mint@, *vote_kind, options.deep_view(), use_deny_option, proposal_index),
{
    let vt = match *vote_kind {
        VoteKind::SingleChoice => SplVoteType::SingleChoice,
        VoteKind::MultiChoice { max_voter_options: a, max_winning_options: b } =>
            SplVoteType::MultiChoice { max_voter_options: a, max_winning_options: b },
    };
    let vwr = match voter_weight_record { Some(a) => Some(pk(a)), None => None };
    instr_from(create_proposal(&pk(program), &pk(governance), &pk(proposal_owner_record),
        &pk(governance_authority), &pk(payer), vwr, &pk(realm), name.clone(), description.clone(),
        &pk(mint), vt, options.clone(), use_deny_option, proposal_index))
}

/// Relies on spl_governance::instruction::add_signatory: the encoded
/// instruction depends on the arguments alone; the result is converted
/// field for field.
#[verifier::external_body]
pub(crate) fn add_signatory_call(
    program: &Addr,
    proposal: &Addr,
    token_owner_record: &Addr,
    governance_authority: &Addr,
    payer: &Addr,
    signatory: &Addr,
) -> (r: Instr)
    ensures
        r@ == add_signatory_ix_of(program@, proposal@, token_owner_record@,
            governance_authority@, payer@, signatory@),
{
    instr_from(add_signatory(&pk(program), &pk(proposal), &pk(token_owner_record),
        &pk(governance_authority), &pk(payer), &pk(signatory)))
}

/// Relies on spl_governance::instruction::insert_transaction: the encoded
/// instruction depends on the arguments alone; the result and the
/// instruction list are converted field for field.
#[verifier::external_body]
pub(crate) fn insert_transaction_call(
    program: &Addr,
    governance: &Addr,
    proposal: &Addr,
    token_owner_record: &Addr,
    governance_authority: &Addr,
    payer: &Addr,
    option_index: u8,
    index: u16,
    hold_up_time: u32,
    instructions: &Vec<Instr>,
) -> (r: Instr)
    ensures
        r@ == insert_transaction_ix_of(program@, governance@, proposal@, token_owner_record@,
            governance_authority@, payer@, option_index, index, hold_up_time,
            instructions.deep_view()),
{
    let txs: Vec<InstructionData> = instructions.iter().map(|i| InstructionData {
        program_id: pk(&i.program_id),
        accounts: i.accounts.iter().map(|a| AccountMetaData {
            pubkey: pk(&a.pubkey), is_signer: a.is_signer, is_writable: a.is_writable,
        }).collect(),
        data: i.data.clone(),
    }).collect();
    instr_from(insert_transaction(&pk(program), &pk(governance), &pk(proposal),
        &pk(token_owner_record), &pk(governance_authority), &pk(payer), option_index, index,
        hold_up_time, txs))
}

/// Relies on spl_governance::instruction::sign_off_proposal: the encoded
/// instruction depends on the arguments alone; the result is converted
/// field for field.
#[verifier::external_body]
pub(crate) fn sign_off_call(
    program: &Addr,
    realm: &Addr,
    governance: &Addr,
    proposal: &Addr,
    signatory: &Addr,
    proposal_owner_record: Option<&Addr>,
) -> (r: Instr)
    ensures
        r@ == sign_off_ix_of(program@, realm@, governance@, proposal@, signatory@,
            proposal_owner_record.deep_view()),
{
    let por = match proposal_owner_record { Some(a) => Some(pk(a)), None => None };
    instr_from(sign_off_proposal(&pk(program), &pk(realm), &pk(governance), &pk(proposal),
        &pk(signatory), por.as_ref()))
}

/// Relies on spl_governance::instruction::cast_vote: the encoded
/// instruction depends on the arguments alone; the result and the vote
/// are converted field for field.
#[verifier::external_body]
pub(crate) fn cast_vote_call(
    program: &Addr,
    realm: &Addr,
    governance: &Addr,
    proposal: &Addr,
    proposal_owner_record: &Addr,
    voter_token_owner_record: &Addr,
    governance_authority: &Addr,
    mint: &Addr,
    payer: &Addr,
    voter_weight_record: Option<&Addr>,
    max_voter_weight_record: Option<&Addr>,
    vote: &LedgerVote,
) -> (r: Instr)
    ensures
        r@ == cast_vote_ix_of(program@, realm@, governance@, proposal@, proposal_owner_record@,
            voter_token_owner_record@, governance_authority@, mint@, payer@,
            voter_weight_record.deep_view(), max_voter_weight_record.deep_view(), vote@),
{
    let v = match vote {
        LedgerVote::Approve(cs) => SplVote::Approve(cs.iter().map(|c| SplVoteChoice { rank: c.rank, weight_percentage: c.weight_percentage }).collect()),
        LedgerVote::Deny => SplVote::Deny,
        LedgerVote::Abstain => SplVote::Abstain,
        LedgerVote::Veto => SplVote::Veto,
    };
    let vwr = match voter_weight_record { Some(a) => Some(pk(a)), None => None };
    let mvwr = match max_voter_weight_record { Some(a) => Some(pk(a)), None => None };
    instr_from(cast_vote(&pk(program), &pk(realm), &pk(governance), &pk(proposal),
        &pk(proposal_owner_record), &pk(voter_token_owner_record), &pk(governance_authority),
        &pk(mint), &pk(payer), vwr, mvwr, v))
}

/// Relies on spl_governance::instruction::execute_transaction: the encoded
/// instruction depends on the arguments alone; the result and the account
/// list are converted field for field.
#[verifier::external_body]
pub(crate) fn execute_transaction_call(
    program: &Addr,
    governance: &Addr,
    proposal: &Addr,
    proposal_transaction: &Addr,
    instruction_program_id: &Addr,
    instruction_accounts: &Vec<AccountEntry>,
) -> (r: Instr)
    ensures
        r@ == execute_transaction_ix_of(program@, governance@, proposal@, proposal_transaction@,
            instruction_program_id@, instruction_accounts.deep_view()),
{
    let metas: Vec<AccountMeta> = instruction_accounts.iter().map(|a| AccountMeta {
        pubkey: pk(&a.pubkey), is_signer: a.is_signer, is_writable: a.is_writable,
    }).collect();
    instr_from(execute_transaction(&pk(program), &pk(governance), &pk(proposal),
        &pk(proposal_transaction), &pk(instruction_program_id), metas.as_slice()))
}

/// Relies on spl_governance::instruction::deposit_governing_tokens: the
/// encoded instruction depends on the arguments alone; the result is
/// converted field for field.
#[verifier::external_body]
pub(crate) fn deposit_call(
    program: &Addr,
    realm: &Addr,
    source: &Addr,
    owner: &Addr,
    transfer_authority: &Addr,
    payer: &Addr,
    amount: u64,
    mint: &Addr,
) -> (r: Instr)
    ensures
        r@ == deposit_ix_of(program@, realm@, source@, owner@, transfer_authority@, payer@,
            amount, mint@),
{
    instr_from(deposit_governing_tokens(&pk(program), &pk(realm), &pk(source), &pk(owner),
        &pk(transfer_authority), &pk(payer), amount, &pk(mint)))
}

/// Relies on spl_governance::instruction::withdraw_governing_tokens: the
/// encoded instruction depends on the arguments alone; the result is
/// converted field for field.
#[verifier::external_body]
pub(crate) fn withdraw_call(
    program: &Addr,
    realm: &Addr,
    destination: &Addr,
    owner: &Addr,
    mint: &Addr,
) -> (r: Instr)
    ensures
        r@ == withdraw_ix_of(program@, realm@, destination@, owner@, mint@),
{
    instr_from(withdraw_governing_tokens(&pk(program), &pk(realm), &pk(destination), &pk(owner),
        &pk(mint)))
}

/// Relies on spl_governance::instruction::set_governance_config: the
/// encoded instruction depends on the arguments alone; the configuration
/// is converted field for field.
#[verifier::external_body]
pub(crate) fn set_governance_config_call(program: &Addr, governance: &Addr, config: &GovConfig) -> (r: Instr)
    ensures
        r@ == set_governance_config_ix_of(program@, governance@, *config),
{
    let c = SplGovConfig {
        vote_threshold_percentage: match config.vote_threshold { VoteThreshold::YesVote(p) => SplThreshold::YesVote(p), VoteThreshold::Quorum(p) => SplThreshold::Quorum(p) },
        min_community_weight_to_create_proposal: config.min_community_weight_to_create_proposal,
        min_transaction_hold_up_time: config.min_transaction_hold_up_time,
        max_voting_time: config.max_voting_time,
        vote_tipping: match config.vote_tipping { VoteTipping::Strict => SplTipping::Strict, VoteTipping::Early => SplTipping::Early, VoteTipping::Disabled => SplTipping::Disabled },
        proposal_cool_off_time: config.proposal_cool_off_time,
        min_council_weight_to_create_proposal: config.min_council_weight_to_create_proposal,
    };
    instr_from(set_governance_config(&pk(program), &pk(governance), c))
}

/// The account list of a close-buffer instruction: the buffer and the
/// recipient writable, the authority a read-only signer.
pub open spec fn spec_close_buffer_accounts(buffer: Seq<u8>, recipient: Seq<u8>, authority: Seq<u8>) -> Seq<AccountEntryView> {
    seq![
        AccountEntryView { pubkey: buffer, is_signer: false, is_writable: true },
        AccountEntryView { pubkey: recipient, is_signer: false, is_writable: true },
        AccountEntryView { pubkey: authority, is_signer: true, is_writable: false },
    ]
}

/// The close-buffer instruction, stated exactly: the loader's close
/// opcode with the three accounts above.
pub open spec fn spec_close_buffer_ix(buffer: Seq<u8>, recipient: Seq<u8>, authority: Seq<u8>) -> InstrView {
    InstrView {
        program_id: spec_bpf_loader_upgradeable_id(),
        accounts: spec_close_buffer_accounts(buffer, recipient, authority),
        data: seq![5u8, 0u8, 0u8, 0u8],
    }
}

/// Relies on solana_program::bpf_loader_upgradeable::close_any, called
/// with an authority and no program account: it returns the loader's
/// close opcode (variant 5, little-endian) over exactly the three
/// accounts stated.
#[verifier::external_body]
pub(crate) fn close_buffer_call(buffer: &Addr, recipient: &Addr, authority: &Addr) -> (r: Instr)
    ensures
        r@ == spec_close_buffer_ix(buffer@, recipient@, authority@),
{
    instr_from(close_any(&pk(buffer), &pk(recipient), Some(&pk(authority)), None))
}

} // verus!
