//! Per-action instruction assembly.
//!
//! Each lifecycle action takes already-fetched state and plain arguments
//! and returns the exact ordered instruction list to submit as one atomic
//! transaction. Nothing here performs I/O.

use vstd::prelude::*;
use vstd::math::min;
use crate::addr::Addr;
use crate::builders::{add_signatory_call, add_signatory_ix_of, cast_vote_call, cast_vote_ix_of,
    close_buffer_call, create_proposal_call, create_proposal_ix_of, deposit_call, deposit_ix_of,
    execute_transaction_call, execute_transaction_ix_of, insert_transaction_call,
    insert_transaction_ix_of, set_governance_config_call, set_governance_config_ix_of,
    sign_off_call, sign_off_ix_of, spec_close_buffer_ix, withdraw_call, withdraw_ix_of};
use crate::bytes::spec_u32_le;
use crate::derive::{proposal_addr_of, proposal_address, token_owner_record_address, tor_addr_of};
use crate::error::GovError;
use crate::instruction::{create_upgrade_program_instruction, spec_upgrade_ix};
use crate::model::{AccountEntry, AccountEntryView, ChoiceWeight, GovConfig, GovCtx, Governance,
    Instr, InstrView, LedgerVote, LedgerVoteView, MintType, Proposal, ProposalTransaction, Realm,
    RealmView, UpgradeableBuffer, VoteChoice, VoteKind, VoteThreshold};

verus! {

// ---------------------------------------------------------------------------
// Governing-mint resolution
// ---------------------------------------------------------------------------

/// The governing mint a mint type selects: the realm's community mint for
/// Member, the configured council mint for Council, nothing when Council
/// is asked of a realm without one.
pub open spec fn spec_resolve_mint(realm: RealmView, mint_type: MintType) -> Option<Seq<u8>> {
    match mint_type {
        MintType::Member => Some(realm.community_mint),
        MintType::Council => realm.council_mint,
    }
}

/// Resolves the governing mint for a mint type. Requesting the council
/// mint of a realm that has none configured is a configuration error,
/// never a fallback to the community mint.
pub fn resolve_governing_mint(realm: &Realm, mint_type: MintType) -> (r: Result<Addr, GovError>)
    ensures
        match r {
            Ok(a) => spec_resolve_mint(realm@, mint_type) == Some(a@),
            Err(e) => spec_resolve_mint(realm@, mint_type) is None
                && e == GovError::ConfigurationError,
        },
{
    match mint_type {
        MintType::Member => Ok(realm.community_mint),
        MintType::Council => match realm.council_mint {
            Some(a) => Ok(a),
            None => Err(GovError::ConfigurationError),
        },
    }
}

/// A realm without a configured council mint never resolves a council
/// request, and always resolves a member request to its community mint.
pub proof fn lemma_council_never_falls_back(realm: RealmView)
    requires
        realm.council_mint is None,
    ensures
        spec_resolve_mint(realm, MintType::Council) is None,
        spec_resolve_mint(realm, MintType::Member) == Some(realm.community_mint),
{
}

// ---------------------------------------------------------------------------
// Spill-account defaulting
// ---------------------------------------------------------------------------

/// The spill account an upgrade pays leftover balance to: the one
/// supplied, or the payer itself when none was.
pub open spec fn spec_resolve_spill(spill: Option<Seq<u8>>, payer: Seq<u8>) -> Seq<u8> {
    match spill {
        Some(s) => s,
        None => payer,
    }
}

/// Resolves the optional spill account, defaulting to the payer.
pub fn resolve_spill(spill: &Option<Addr>, payer: &Addr) -> (r: Addr)
    ensures
        r@ == spec_resolve_spill(spill.deep_view(), payer@),
{
    match spill {
        Some(s) => *s,
        None => *payer,
    }
}

// ---------------------------------------------------------------------------
// Vote encoding
// ---------------------------------------------------------------------------

/// The ledger encoding of a yes/no choice: yes is an approval of the
/// single option at full weight, no is a denial.
pub open spec fn spec_ledger_vote(choice: VoteChoice) -> LedgerVoteView {
    match choice {
        VoteChoice::Yes => LedgerVoteView::Approve(
            seq![ChoiceWeight { rank: 0u8, weight_percentage: 100u8 }],
        ),
        VoteChoice::No => LedgerVoteView::Deny,
    }
}

/// Maps the caller's yes/no choice to the ledger's vote representation,
/// one to one.
pub fn ledger_vote(choice: VoteChoice) -> (r: LedgerVote)
    ensures
        r@ == spec_ledger_vote(choice),
{
    match choice {
        VoteChoice::Yes => {
            let mut cs: Vec<ChoiceWeight> = Vec::new();
            cs.push(ChoiceWeight { rank: 0, weight_percentage: 100 });
            proof {
                assert(cs@ =~= seq![ChoiceWeight { rank: 0u8, weight_percentage: 100u8 }]);
            }
            LedgerVote::Approve(cs)
        },
        VoteChoice::No => LedgerVote::Deny,
    }
}

// ---------------------------------------------------------------------------
// The four-instruction proposal bundle
// ---------------------------------------------------------------------------

/// The instruction sequence every proposal-creating action submits as one
/// atomic unit: create the proposal at `proposal_index`, add the payer as
/// sole signatory, insert `inner` at option 0 / index 0 / no hold-up, and
/// sign off. All four address the proposal derived from the same index,
/// so a concurrent creation that bumps the counter fails the whole
/// bundle.
pub open spec fn spec_proposal_bundle(
    program: Seq<u8>,
    realm: Seq<u8>,
    governance: Seq<u8>,
    payer: Seq<u8>,
    name: Seq<char>,
    description: Seq<char>,
    mint: Seq<u8>,
    vote_kind: VoteKind,
    options: Seq<Seq<char>>,
    proposal_index: u32,
    inner: Seq<InstrView>,
) -> Seq<InstrView> {
    let tor = tor_addr_of(program, realm, mint, payer);
    let pa = proposal_addr_of(program, governance, mint, spec_u32_le(proposal_index));
    seq![
        create_proposal_ix_of(program, governance, tor, payer, payer, None, realm, name,
            description, mint, vote_kind, options, true, proposal_index),
        add_signatory_ix_of(program, pa, tor, payer, payer, payer),
        insert_transaction_ix_of(program, governance, pa, tor, payer, payer, 0, 0, 0, inner),
        sign_off_ix_of(program, realm, governance, pa, payer, None),
    ]
}

/// Builds the four-instruction proposal bundle for the given mint, index
/// and inner instruction list.
pub fn build_proposal_bundle(
    ctx: &GovCtx,
    payer: &Addr,
    name: &String,
    description: &String,
    mint: &Addr,
    vote_kind: VoteKind,
    options: &Vec<String>,
    proposal_index: u32,
    inner: &Vec<Instr>,
) -> (r: Vec<Instr>)
    ensures
        r.deep_view() == spec_proposal_bundle(ctx.program@, ctx.realm@, ctx.governance@, payer@,
            name@, description@, mint@, vote_kind, options.deep_view(), proposal_index,
            inner.deep_view()),
{
    let tor = token_owner_record_address(&ctx.program, &ctx.realm, mint, payer);
    let pa = proposal_address(&ctx.program, &ctx.governance, mint, proposal_index);
    let create_ix = create_proposal_call(&ctx.program, &ctx.governance, &tor, payer, payer, None,
        &ctx.realm, name, description, mint, &vote_kind, options, true, proposal_index);
    let add_ix = add_signatory_call(&ctx.program, &pa, &tor, payer, payer, payer);
    let insert_ix = insert_transaction_call(&ctx.program, &ctx.governance, &pa, &tor, payer,
        payer, 0, 0, 0, inner);
    let sign_ix = sign_off_call(&ctx.program, &ctx.realm, &ctx.governance, &pa, payer, None);
    let mut r: Vec<Instr> = Vec::new();
    r.push(create_ix);
    r.push(add_ix);
    r.push(insert_ix);
    r.push(sign_ix);
    proof {
        assert(r.deep_view() =~= spec_proposal_bundle(ctx.program@, ctx.realm@, ctx.governance@,
            payer@, name@, description@, mint@, vote_kind, options.deep_view(), proposal_index,
            inner.deep_view()));
    }
    r
}

// ---------------------------------------------------------------------------
// Propose
// ---------------------------------------------------------------------------

/// Caller-supplied arguments of the propose action.
#[derive(Clone, Debug)]
pub struct ProposeArgs {
    /// The buffer holding the new program bytes.
    pub source_buffer: Addr,
    /// Where the buffer's leftover balance goes; the payer when absent.
    pub spill_account: Option<Addr>,
    pub name: String,
    pub description: String,
    pub mint_type: MintType,
    pub vote_kind: VoteKind,
    /// Option labels of the proposal.
    pub options: Vec<String>,
}

/// The inner instruction list of an upgrade proposal: the single upgrade
/// instruction, authorized by the governance account.
pub open spec fn spec_propose_inner(ctx: GovCtx, source_buffer: Seq<u8>, spill: Seq<u8>) -> Seq<InstrView> {
    seq![
        spec_upgrade_ix(ctx.target_program_data@, ctx.target_program@, source_buffer, spill,
            ctx.governance@),
    ]
}

/// Builds the propose action's instruction list: the four-instruction
/// bundle around one upgrade instruction, at the governance's current
/// proposal counter. Fails exactly when the requested governing mint is
/// not configured.
pub fn propose(
    ctx: &GovCtx,
    payer: &Addr,
    args: &ProposeArgs,
    realm: &Realm,
    governance: &Governance,
) -> (r: Result<Vec<Instr>, GovError>)
    ensures
        match r {
            Ok(v) => spec_resolve_mint(realm@, args.mint_type) is Some && v.deep_view()
                == spec_proposal_bundle(ctx.program@, ctx.realm@, ctx.governance@, payer@,
                args.name@, args.description@, spec_resolve_mint(realm@, args.mint_type)->Some_0,
                args.vote_kind, args.options.deep_view(), governance.proposals_count,
                spec_propose_inner(*ctx, args.source_buffer@,
                    spec_resolve_spill(args.spill_account.deep_view(), payer@))),
            Err(e) => spec_resolve_mint(realm@, args.mint_type) is None
                && e == GovError::ConfigurationError,
        },
{
    let mint = match resolve_governing_mint(realm, args.mint_type) {
        Ok(m) => m,
        Err(e) => {
            return Err(e);
        },
    };
    let spill = resolve_spill(&args.spill_account, payer);
    let upgrade_ix = create_upgrade_program_instruction(&ctx.target_program_data,
        &ctx.target_program, &args.source_buffer, &spill, &ctx.governance);
    let mut inner: Vec<Instr> = Vec::new();
    inner.push(upgrade_ix);
    proof {
        assert(inner.deep_view() =~= spec_propose_inner(*ctx, args.source_buffer@,
            spec_resolve_spill(args.spill_account.deep_view(), payer@)));
    }
    Ok(build_proposal_bundle(ctx, payer, &args.name, &args.description, &mint, args.vote_kind,
        &args.options, governance.proposals_count, &inner))
}

// ---------------------------------------------------------------------------
// Proposal-target resolution (shared by vote and execute)
// ---------------------------------------------------------------------------

/// Decides, before any remote read, whether a target proposal can be
/// resolved: with `latest` the governance's counter must be fetched
/// first; otherwise an explicit proposal id is required, and its absence
/// is a usage error.
pub fn proposal_target_query(latest: bool, proposal_id: &Option<Addr>) -> (r: Result<bool, GovError>)
    ensures
        match r {
            Ok(b) => b == latest && (latest || proposal_id is Some),
            Err(e) => !latest && proposal_id is None && e == GovError::UsageError,
        },
{
    if latest {
        Ok(true)
    } else if proposal_id.is_some() {
        Ok(false)
    } else {
        Err(GovError::UsageError)
    }
}

/// Resolves the proposal a vote or an execution targets: the explicitly
/// supplied address, or, with `latest`, the most recently created
/// proposal — the one at the governance's counter minus one. A governance
/// that has never created a proposal has no latest one.
pub fn resolve_proposal_target(
    ctx: &GovCtx,
    mint: &Addr,
    latest: bool,
    proposal_id: &Option<Addr>,
    governance: &Option<Governance>,
) -> (r: Result<Addr, GovError>)
    requires
        latest ==> governance is Some,
    ensures
        !latest && proposal_id is None ==> r == Err::<Addr, GovError>(GovError::UsageError),
        !latest && proposal_id is Some ==> r is Ok && r->Ok_0 == proposal_id->Some_0,
        latest && governance->Some_0.proposals_count == 0 ==> r == Err::<Addr, GovError>(
            GovError::UsageError,
        ),
        latest && governance->Some_0.proposals_count >= 1 ==> r is Ok && r->Ok_0@
            == proposal_addr_of(ctx.program@, ctx.governance@, mint@,
            spec_u32_le((governance->Some_0.proposals_count - 1) as u32)),
{
    if latest {
        let count = match governance {
            Some(g) => g.proposals_count,
            None => {
                return Err(GovError::UsageError);
            },
        };
        if count == 0 {
            return Err(GovError::UsageError);
        }
        Ok(proposal_address(&ctx.program, &ctx.governance, mint, count - 1))
    } else {
        match proposal_id {
            Some(p) => Ok(*p),
            None => Err(GovError::UsageError),
        }
    }
}

// ---------------------------------------------------------------------------
// Vote
// ---------------------------------------------------------------------------

/// Caller-supplied arguments of the vote action.
#[derive(Clone, Copy, Debug)]
pub struct VoteArgs {
    /// An explicitly chosen proposal, when not voting on the latest one.
    pub proposal_id: Option<Addr>,
    pub vote_choice: VoteChoice,
    pub mint_type: MintType,
    /// Vote on the most recently created proposal.
    pub latest: bool,
}

/// The single cast-vote instruction of the vote action: the proposal
/// owner's record and the voter's own record are both derived for the
/// resolved mint, and the caller signs and pays.
pub open spec fn spec_cast_vote_ix(
    ctx: GovCtx,
    mint: Seq<u8>,
    proposal: Seq<u8>,
    proposal_owner: Seq<u8>,
    voter: Seq<u8>,
    choice: VoteChoice,
) -> InstrView {
    cast_vote_ix_of(ctx.program@, ctx.realm@, ctx.governance@, proposal,
        tor_addr_of(ctx.program@, ctx.realm@, mint, proposal_owner),
        tor_addr_of(ctx.program@, ctx.realm@, mint, voter), voter, mint, voter, None, None,
        spec_ledger_vote(choice))
}

/// Builds the cast-vote instruction. `proposal_owner` is the governing
/// token owner recorded in the proposal's own token-owner record, which
/// need not be the voter.
pub fn vote(
    ctx: &GovCtx,
    mint: &Addr,
    proposal_id: &Addr,
    proposal_owner: &Addr,
    voter: &Addr,
    choice: VoteChoice,
) -> (r: Instr)
    ensures
        r@ == spec_cast_vote_ix(*ctx, mint@, proposal_id@, proposal_owner@, voter@, choice),
{
    let proposal_owner_record = token_owner_record_address(&ctx.program, &ctx.realm, mint,
        proposal_owner);
    let voter_record = token_owner_record_address(&ctx.program, &ctx.realm, mint, voter);
    let vote = ledger_vote(choice);
    cast_vote_call(&ctx.program, &ctx.realm, &ctx.governance, proposal_id,
        &proposal_owner_record, &voter_record, voter, mint, voter, None, None, &vote)
}

// ---------------------------------------------------------------------------
// Execute
// ---------------------------------------------------------------------------

/// Caller-supplied arguments of the execute action.
#[derive(Clone, Copy, Debug)]
pub struct ExecuteArgs {
    /// An explicitly chosen proposal, when not executing the latest one.
    pub proposal_id: Option<Addr>,
    /// Execute the most recently created proposal.
    pub latest: bool,
    pub mint_type: MintType,
}

/// The option index the execute action targets, recovered from the first
/// option's next-transaction counter: the last populated index, truncated
/// to the byte width of the ledger's option seed.
pub open spec fn spec_execute_option_index(next_index: u16) -> u8 {
    (((next_index as int) - 1) % 256) as u8
}

/// Recovers the option index to execute from a proposal's first option.
/// A proposal without options, or whose first option never had a
/// transaction inserted, has nothing to execute.
pub fn execute_option_index(proposal: &Proposal) -> (r: Result<u8, GovError>)
    ensures
        match r {
            Ok(i) => proposal@.options.len() >= 1 && proposal@.options[0].transactions_next_index
                >= 1 && i == spec_execute_option_index(
                proposal@.options[0].transactions_next_index),
            Err(e) => (proposal@.options.len() == 0 || proposal@.options[0].transactions_next_index
                == 0) && e == GovError::UsageError,
        },
{
    if proposal.options.len() == 0 {
        return Err(GovError::UsageError);
    }
    let next = proposal.options[0].transactions_next_index;
    if next == 0 {
        return Err(GovError::UsageError);
    }
    Ok(((next - 1) % 256) as u8)
}

/// The recorded instruction's account list with the governance identity's
/// signer flag forced off: the ledger co-signs for the governance account
/// itself, so the client must not claim it as an external signer. Every
/// other flag and every address is preserved.
pub open spec fn spec_unsign_governance(accounts: Seq<AccountEntryView>, governance: Seq<u8>) -> Seq<AccountEntryView> {
    accounts.map_values(|a: AccountEntryView| AccountEntryView {
        pubkey: a.pubkey,
        is_signer: if a.pubkey == governance {
            false
        } else {
            a.is_signer
        },
        is_writable: a.is_writable,
    })
}

/// Rewrites an account list, forcing the governance identity's signer
/// flag off and preserving everything else.
pub fn unsign_governance(accounts: &Vec<AccountEntry>, governance: &Addr) -> (r: Vec<AccountEntry>)
    ensures
        r.deep_view() == spec_unsign_governance(accounts.deep_view(), governance@),
{
    let mut r: Vec<AccountEntry> = Vec::new();
    let mut i: usize = 0;
    while i < accounts.len()
        invariant
            i <= accounts.len(),
            r.deep_view() =~= spec_unsign_governance(accounts.deep_view().take(i as int),
                governance@),
        decreases accounts.len() - i,
    {
        let a = &accounts[i];
        let is_signer = if a.pubkey == *governance {
            false
        } else {
            a.is_signer
        };
        let e = AccountEntry { pubkey: a.pubkey, is_signer, is_writable: a.is_writable };
        let ghost prev = r.deep_view();
        r.push(e);
        proof {
            assert(r.deep_view() =~= prev.push(e.deep_view()));
            assert(accounts.deep_view().take(i + 1) =~= accounts.deep_view().take(i as int).push(
                accounts.deep_view()[i as int]));
            assert(spec_unsign_governance(accounts.deep_view().take(i + 1), governance@)
                =~= prev.push(e.deep_view()));
        }
        i = i + 1;
    }
    proof {
        assert(accounts.deep_view().take(accounts.len() as int) =~= accounts.deep_view());
        assert(r.deep_view() =~= spec_unsign_governance(accounts.deep_view(), governance@));
    }
    r
}

/// Builds the execute-transaction instruction for a fetched
/// proposal-transaction record. A record with more than one contained
/// instruction is out of scope, and one with none has nothing to
/// execute; both are usage errors.
pub fn execute(
    ctx: &GovCtx,
    proposal_id: &Addr,
    proposal_transaction: &Addr,
    record: &ProposalTransaction,
) -> (r: Result<Instr, GovError>)
    ensures
        match r {
            Ok(ix) => record@.instructions.len() == 1 && ix@ == execute_transaction_ix_of(
                ctx.program@, ctx.governance@, proposal_id@, proposal_transaction@,
                record@.instructions[0].program_id,
                spec_unsign_governance(record@.instructions[0].accounts, ctx.governance@)),
            Err(e) => record@.instructions.len() != 1 && e == GovError::UsageError,
        },
{
    if record.instructions.len() != 1 {
        return Err(GovError::UsageError);
    }
    let inner = &record.instructions[0];
    let accounts = unsign_governance(&inner.accounts, &ctx.governance);
    Ok(execute_transaction_call(&ctx.program, &ctx.governance, proposal_id, proposal_transaction,
        &inner.program_id, &accounts))
}

// ---------------------------------------------------------------------------
// Deposit and withdraw
// ---------------------------------------------------------------------------

/// Builds the single deposit-governing-tokens instruction for `amount` of
/// the resolved mint, moving tokens from `source`, with the caller as
/// owner, transfer authority and payer. Fails exactly when the requested
/// mint is not configured.
pub fn deposit(
    ctx: &GovCtx,
    payer: &Addr,
    source: &Addr,
    amount: u64,
    realm: &Realm,
    mint_type: MintType,
) -> (r: Result<Instr, GovError>)
    ensures
        match r {
            Ok(ix) => spec_resolve_mint(realm@, mint_type) is Some && ix@ == deposit_ix_of(
                ctx.program@, ctx.realm@, source@, payer@, payer@, payer@, amount,
                spec_resolve_mint(realm@, mint_type)->Some_0),
            Err(e) => spec_resolve_mint(realm@, mint_type) is None
                && e == GovError::ConfigurationError,
        },
{
    let mint = match resolve_governing_mint(realm, mint_type) {
        Ok(m) => m,
        Err(e) => {
            return Err(e);
        },
    };
    Ok(deposit_call(&ctx.program, &ctx.realm, source, payer, payer, payer, amount, &mint))
}

/// Builds the single withdraw-governing-tokens instruction for the
/// resolved mint, returning tokens to `destination`. Fails exactly when
/// the requested mint is not configured.
pub fn withdraw(
    ctx: &GovCtx,
    payer: &Addr,
    destination: &Addr,
    realm: &Realm,
    mint_type: MintType,
) -> (r: Result<Instr, GovError>)
    ensures
        match r {
            Ok(ix) => spec_resolve_mint(realm@, mint_type) is Some && ix@ == withdraw_ix_of(
                ctx.program@, ctx.realm@, destination@, payer@,
                spec_resolve_mint(realm@, mint_type)->Some_0),
            Err(e) => spec_resolve_mint(realm@, mint_type) is None
                && e == GovError::ConfigurationError,
        },
{
    let mint = match resolve_governing_mint(realm, mint_type) {
        Ok(m) => m,
        Err(e) => {
            return Err(e);
        },
    };
    Ok(withdraw_call(&ctx.program, &ctx.realm, destination, payer, &mint))
}

// ---------------------------------------------------------------------------
// Update (sparse patch of the governance configuration)
// ---------------------------------------------------------------------------

/// Caller-supplied overrides of the update action. A field left unset
/// leaves the remote value unchanged.
#[derive(Clone, Copy, Debug)]
pub struct UpdateArgs {
    /// New yes-vote threshold percentage.
    pub vote_threshold_percentage: Option<u8>,
    pub min_council_weight_to_create_proposal: Option<u64>,
    pub min_transaction_hold_up_time: Option<u32>,
    pub max_voting_time: Option<u32>,
    pub proposal_cool_off_time: Option<u32>,
    pub min_community_weight_to_create_proposal: Option<u64>,
}

/// The current configuration with exactly the supplied fields replaced.
/// A supplied threshold always becomes a yes-vote threshold; the vote
/// tipping rule has no override and is always kept.
pub open spec fn spec_apply_update(current: GovConfig, args: UpdateArgs) -> GovConfig {
    GovConfig {
        vote_threshold: match args.vote_threshold_percentage {
            Some(p) => VoteThreshold::YesVote(p),
            None => current.vote_threshold,
        },
        min_community_weight_to_create_proposal: match args
            .min_community_weight_to_create_proposal {
            Some(v) => v,
            None => current.min_community_weight_to_create_proposal,
        },
        min_transaction_hold_up_time: match args.min_transaction_hold_up_time {
            Some(v) => v,
            None => current.min_transaction_hold_up_time,
        },
        max_voting_time: match args.max_voting_time {
            Some(v) => v,
            None => current.max_voting_time,
        },
        vote_tipping: current.vote_tipping,
        proposal_cool_off_time: match args.proposal_cool_off_time {
            Some(v) => v,
            None => current.proposal_cool_off_time,
        },
        min_council_weight_to_create_proposal: match args.min_council_weight_to_create_proposal {
            Some(v) => v,
            None => current.min_council_weight_to_create_proposal,
        },
    }
}

/// Applies the sparse patch to a fetched configuration.
pub fn apply_update(current: &GovConfig, args: &UpdateArgs) -> (r: GovConfig)
    ensures
        r == spec_apply_update(*current, *args),
{
    GovConfig {
        vote_threshold: match args.vote_threshold_percentage {
            Some(p) => VoteThreshold::YesVote(p),
            None => current.vote_threshold,
        },
        min_community_weight_to_create_proposal: match args
            .min_community_weight_to_create_proposal {
            Some(v) => v,
            None => current.min_community_weight_to_create_proposal,
        },
        min_transaction_hold_up_time: match args.min_transaction_hold_up_time {
            Some(v) => v,
            None => current.min_transaction_hold_up_time,
        },
        max_voting_time: match args.max_voting_time {
            Some(v) => v,
            None => current.max_voting_time,
        },
        vote_tipping: current.vote_tipping,
        proposal_cool_off_time: match args.proposal_cool_off_time {
            Some(v) => v,
            None => current.proposal_cool_off_time,
        },
        min_council_weight_to_create_proposal: match args.min_council_weight_to_create_proposal {
            Some(v) => v,
            None => current.min_council_weight_to_create_proposal,
        },
    }
}

/// Supplying no optional fields leaves every configuration field
/// unchanged.
pub proof fn lemma_update_empty_is_identity(current: GovConfig, args: UpdateArgs)
    requires
        args.vote_threshold_percentage is None,
        args.min_council_weight_to_create_proposal is None,
        args.min_transaction_hold_up_time is None,
        args.max_voting_time is None,
        args.proposal_cool_off_time is None,
        args.min_community_weight_to_create_proposal is None,
    ensures
        spec_apply_update(current, args) == current,
{
}

/// Each configuration field changes exactly when its override is
/// supplied, and then to the supplied value; the vote tipping rule never
/// changes. So supplying exactly one field changes only that field.
pub proof fn lemma_update_patches_only_supplied(current: GovConfig, args: UpdateArgs)
    ensures
        spec_apply_update(current, args).vote_threshold == match args.vote_threshold_percentage {
            Some(p) => VoteThreshold::YesVote(p),
            None => current.vote_threshold,
        },
        spec_apply_update(current, args).min_community_weight_to_create_proposal == match args
            .min_community_weight_to_create_proposal {
            Some(v) => v,
            None => current.min_community_weight_to_create_proposal,
        },
        spec_apply_update(current, args).min_transaction_hold_up_time == match args
            .min_transaction_hold_up_time {
            Some(v) => v,
            None => current.min_transaction_hold_up_time,
        },
        spec_apply_update(current, args).max_voting_time == match args.max_voting_time {
            Some(v) => v,
            None => current.max_voting_time,
        },
        spec_apply_update(current, args).proposal_cool_off_time == match args
            .proposal_cool_off_time {
            Some(v) => v,
            None => current.proposal_cool_off_time,
        },
        spec_apply_update(current, args).min_council_weight_to_create_proposal == match args
            .min_council_weight_to_create_proposal {
            Some(v) => v,
            None => current.min_council_weight_to_create_proposal,
        },
        spec_apply_update(current, args).vote_tipping == current.vote_tipping,
{
}

/// Builds the update action's single set-governance-config instruction:
/// the fetched configuration with the sparse patch applied.
pub fn update(ctx: &GovCtx, current: &GovConfig, args: &UpdateArgs) -> (r: Instr)
    ensures
        r@ == set_governance_config_ix_of(ctx.program@, ctx.governance@, spec_apply_update(
            *current, *args)),
{
    let patched = apply_update(current, args);
    set_governance_config_call(&ctx.program, &ctx.governance, &patched)
}

// ---------------------------------------------------------------------------
// Close buffers
// ---------------------------------------------------------------------------

/// The most buffers one close proposal reaches, keeping the transaction
/// within wire-size limits.
pub const CLOSE_BATCH_SIZE: usize = 10;

/// One close instruction per discovered buffer, capped at the batch
/// size; later buffers wait for another invocation.
pub open spec fn spec_close_instructions(
    buffers: Seq<UpgradeableBuffer>,
    recipient: Seq<u8>,
    authority: Seq<u8>,
) -> Seq<InstrView> {
    buffers.take(min(buffers.len() as int, CLOSE_BATCH_SIZE as int)).map_values(
        |b: UpgradeableBuffer| spec_close_buffer_ix(b.address@, recipient, authority),
    )
}

/// Builds one close instruction per buffer, never more than the batch
/// size.
pub fn build_close_instructions(
    buffers: &Vec<UpgradeableBuffer>,
    recipient: &Addr,
    authority: &Addr,
) -> (r: Vec<Instr>)
    ensures
        r.deep_view() == spec_close_instructions(buffers@, recipient@, authority@),
        r@.len() == min(buffers@.len() as int, CLOSE_BATCH_SIZE as int),
{
    let n = if buffers.len() < CLOSE_BATCH_SIZE {
        buffers.len()
    } else {
        CLOSE_BATCH_SIZE
    };
    let mut r: Vec<Instr> = Vec::new();
    let mut i: usize = 0;
    while i < n
        invariant
            i <= n,
            n == min(buffers@.len() as int, CLOSE_BATCH_SIZE as int),
            r.deep_view() =~= buffers@.take(i as int).map_values(
                |b: UpgradeableBuffer| spec_close_buffer_ix(b.address@, recipient@, authority@),
            ),
        decreases n - i,
    {
        let ix = close_buffer_call(&buffers[i].address, recipient, authority);
        let ghost prev = r.deep_view();
        r.push(ix);
        proof {
            assert(r.deep_view() =~= prev.push(ix@));
            assert(buffers@.take(i + 1) =~= buffers@.take(i as int).push(buffers@[i as int]));
            assert(buffers@.take(i + 1).map_values(
                |b: UpgradeableBuffer| spec_close_buffer_ix(b.address@, recipient@, authority@),
            ) =~= prev.push(ix@));
        }
        i = i + 1;
    }
    proof {
        assert(r.deep_view() =~= spec_close_instructions(buffers@, recipient@, authority@));
    }
    r
}

/// Caller-supplied arguments of the close-buffers action.
#[derive(Clone, Debug)]
pub struct CloseBuffersArgs {
    /// The buffer authority whose orphaned buffers are closed.
    pub authority: Addr,
    /// Where the closed buffers' balances go.
    pub recipient: Addr,
    /// Where an upgrade's leftover balance would go; kept for parity with
    /// the propose arguments, unused by the close batch itself.
    pub spill_account: Option<Addr>,
    pub name: String,
    pub description: String,
    pub mint_type: MintType,
    pub vote_kind: VoteKind,
    /// Option labels of the proposal.
    pub options: Vec<String>,
}

/// Builds the close-buffers action's instruction list: the
/// four-instruction proposal bundle around at most one batch of close
/// instructions, so that closing is itself subject to governance
/// approval. Fails exactly when the requested governing mint is not
/// configured.
pub fn close_buffers(
    ctx: &GovCtx,
    payer: &Addr,
    args: &CloseBuffersArgs,
    realm: &Realm,
    governance: &Governance,
    buffers: &Vec<UpgradeableBuffer>,
) -> (r: Result<Vec<Instr>, GovError>)
    ensures
        match r {
            Ok(v) => spec_resolve_mint(realm@, args.mint_type) is Some && v.deep_view()
                == spec_proposal_bundle(ctx.program@, ctx.realm@, ctx.governance@, payer@,
                args.name@, args.description@, spec_resolve_mint(realm@, args.mint_type)->Some_0,
                args.vote_kind, args.options.deep_view(), governance.proposals_count,
                spec_close_instructions(buffers@, args.recipient@, args.authority@)),
            Err(e) => spec_resolve_mint(realm@, args.mint_type) is None
                && e == GovError::ConfigurationError,
        },
{
    let mint = match resolve_governing_mint(realm, args.mint_type) {
        Ok(m) => m,
        Err(e) => {
            return Err(e);
        },
    };
    let inner = build_close_instructions(buffers, &args.recipient, &args.authority);
    Ok(build_proposal_bundle(ctx, payer, &args.name, &args.description, &mint, args.vote_kind,
        &args.options, governance.proposals_count, &inner))
}

} // verus!
