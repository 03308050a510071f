//! Plain-value models of the on-chain records the actions read, and of the
//! instructions they emit.

use vstd::prelude::*;
use crate::addr::Addr;
use crate::error::GovError;

verus! {

// ---------------------------------------------------------------------------
// Instructions
// ---------------------------------------------------------------------------

/// One account reference inside an instruction.
#[derive(Clone, Debug)]
pub struct AccountEntry {
    pub pubkey: Addr,
    pub is_signer: bool,
    pub is_writable: bool,
}

/// Mathematical value of an [`AccountEntry`].
#[verifier::ext_equal]
pub struct AccountEntryView {
    pub pubkey: Seq<u8>,
    pub is_signer: bool,
    pub is_writable: bool,
}

impl View for AccountEntry {
    type V = AccountEntryView;

    open spec fn view(&self) -> AccountEntryView {
        AccountEntryView { pubkey: self.pubkey@, is_signer: self.is_signer, is_writable: self.is_writable }
    }
}

impl DeepView for AccountEntry {
    type V = AccountEntryView;

    open spec fn deep_view(&self) -> AccountEntryView {
        self.view()
    }
}

/// One instruction for the ledger: a target program, an ordered account
/// list, and an opaque payload.
#[derive(Clone, Debug)]
pub struct Instr {
    pub program_id: Addr,
    pub accounts: Vec<AccountEntry>,
    pub data: Vec<u8>,
}

/// Mathematical value of an [`Instr`].
#[verifier::ext_equal]
pub struct InstrView {
    pub program_id: Seq<u8>,
    pub accounts: Seq<AccountEntryView>,
    pub data: Seq<u8>,
}

impl View for Instr {
    type V = InstrView;

    open spec fn view(&self) -> InstrView {
        InstrView {
            program_id: self.program_id@,
            accounts: self.accounts.deep_view(),
            data: self.data@,
        }
    }
}

impl DeepView for Instr {
    type V = InstrView;

    open spec fn deep_view(&self) -> InstrView {
        self.view()
    }
}

// ---------------------------------------------------------------------------
// Session-independent configuration
// ---------------------------------------------------------------------------

/// The identities a lifecycle action works against. Supplied by the caller
/// once per invocation; never baked into this crate.
#[derive(Clone, Copy, Debug)]
pub struct GovCtx {
    /// The governance program that owns realms, proposals and records.
    pub program: Addr,
    /// The realm account.
    pub realm: Addr,
    /// The governance account whose rules and counter apply.
    pub governance: Addr,
    /// The program whose upgrade is being governed.
    pub target_program: Addr,
    /// The program-data account of the governed program.
    pub target_program_data: Addr,
}

// ---------------------------------------------------------------------------
// Governing-token selection and votes
// ---------------------------------------------------------------------------

/// Which governing token a caller acts with: the community ("member") mint
/// or the council mint.
#[derive(Clone, Copy, Debug, PartialEq, Eq, Structural)]
pub enum MintType {
    Member,
    Council,
}

/// The lower-case folding of a string.
pub uninterp spec fn lower_of(s: Seq<char>) -> Seq<char>;

/// Relies on str::to_lowercase: the result depends on the characters
/// alone.
#[verifier::external_body]
fn lowercase(s: &str) -> (r: String)
    ensures
        r@ == lower_of(s@),
{
    s.to_lowercase()
}

/// The mint type a string names, case-insensitively: "member" or
/// "council", nothing else.
pub open spec fn spec_parse_mint_type(s: Seq<char>) -> Option<MintType> {
    if lower_of(s) == "member"@ {
        Some(MintType::Member)
    } else if lower_of(s) == "council"@ {
        Some(MintType::Council)
    } else {
        None
    }
}

/// Parses a mint type name, case-insensitively. Anything but "member"
/// and "council" is a usage error.
pub fn parse_mint_type(s: &str) -> (r: Result<MintType, GovError>)
    ensures
        match r {
            Ok(m) => spec_parse_mint_type(s@) == Some(m),
            Err(e) => spec_parse_mint_type(s@) is None && e == GovError::UsageError,
        },
{
    let folded = lowercase(s);
    if folded == String::from_str("member") {
        Ok(MintType::Member)
    } else if folded == String::from_str("council") {
        Ok(MintType::Council)
    } else {
        Err(GovError::UsageError)
    }
}

impl core::str::FromStr for MintType {
    type Err = GovError;

    fn from_str(s: &str) -> Result<MintType, GovError> {
        parse_mint_type(s)
    }
}

/// The caller's yes/no choice on a proposal.
#[derive(Clone, Copy, Debug, PartialEq, Eq, Structural)]
pub enum VoteChoice {
    Yes,
    No,
}

/// A single weighted choice inside an approval vote, as the ledger encodes
/// it.
#[derive(Clone, Copy, Debug, PartialEq, Eq, Structural)]
pub struct ChoiceWeight {
    pub rank: u8,
    pub weight_percentage: u8,
}

/// A vote as the ledger encodes it.
#[derive(Clone, Debug)]
pub enum LedgerVote {
    Approve(Vec<ChoiceWeight>),
    Deny,
    Abstain,
    Veto,
}

/// Mathematical value of a [`LedgerVote`].
#[verifier::ext_equal]
pub enum LedgerVoteView {
    Approve(Seq<ChoiceWeight>),
    Deny,
    Abstain,
    Veto,
}

impl View for LedgerVote {
    type V = LedgerVoteView;

    open spec fn view(&self) -> LedgerVoteView {
        match self {
            LedgerVote::Approve(cs) => LedgerVoteView::Approve(cs@),
            LedgerVote::Deny => LedgerVoteView::Deny,
            LedgerVote::Abstain => LedgerVoteView::Abstain,
            LedgerVote::Veto => LedgerVoteView::Veto,
        }
    }
}

impl DeepView for LedgerVote {
    type V = LedgerVoteView;

    open spec fn deep_view(&self) -> LedgerVoteView {
        self.view()
    }
}

/// How a proposal's options are voted on.
#[derive(Clone, Copy, Debug, PartialEq, Eq, Structural)]
pub enum VoteKind {
    /// Mutually exclusive options, a single winner.
    SingleChoice,
    /// Up to `max_voter_options` choices per voter, up to
    /// `max_winning_options` winners.
    MultiChoice { max_voter_options: u8, max_winning_options: u8 },
}

// ---------------------------------------------------------------------------
// Governance records
// ---------------------------------------------------------------------------

/// The realm fields the actions read: the community mint and the optional
/// council mint.
#[derive(Clone, Copy, Debug)]
pub struct Realm {
    pub community_mint: Addr,
    pub council_mint: Option<Addr>,
}

/// Mathematical value of a [`Realm`].
#[verifier::ext_equal]
pub struct RealmView {
    pub community_mint: Seq<u8>,
    pub council_mint: Option<Seq<u8>>,
}

impl View for Realm {
    type V = RealmView;

    open spec fn view(&self) -> RealmView {
        RealmView { community_mint: self.community_mint@, council_mint: self.council_mint.deep_view() }
    }
}

/// The threshold rule a governance applies to votes.
#[derive(Clone, Copy, Debug, PartialEq, Eq, Structural)]
pub enum VoteThreshold {
    /// Percentage of yes votes required to tip the vote.
    YesVote(u8),
    /// Minimum percentage of the eligible pool that must vote.
    Quorum(u8),
}

/// When a vote may complete early.
#[derive(Clone, Copy, Debug, PartialEq, Eq, Structural)]
pub enum VoteTipping {
    Strict,
    Early,
    Disabled,
}

/// A governance's rule set, field for field as the ledger stores it.
#[derive(Clone, Copy, Debug, PartialEq, Eq, Structural)]
pub struct GovConfig {
    pub vote_threshold: VoteThreshold,
    pub min_community_weight_to_create_proposal: u64,
    pub min_transaction_hold_up_time: u32,
    pub max_voting_time: u32,
    pub vote_tipping: VoteTipping,
    pub proposal_cool_off_time: u32,
    pub min_council_weight_to_create_proposal: u64,
}

/// The governance fields the actions read: its rule set and its running
/// proposal counter.
#[derive(Clone, Copy, Debug)]
pub struct Governance {
    pub config: GovConfig,
    pub proposals_count: u32,
}

/// One proposal option's transaction counters.
#[derive(Clone, Copy, Debug, PartialEq, Eq, Structural)]
pub struct ProposalOption {
    /// The index the next inserted transaction would take.
    pub transactions_next_index: u16,
}

/// The proposal fields the actions read.
#[derive(Clone, Debug)]
pub struct Proposal {
    /// The token-owner record of the wallet that created the proposal.
    pub token_owner_record: Addr,
    pub options: Vec<ProposalOption>,
}

/// Mathematical value of a [`Proposal`].
#[verifier::ext_equal]
pub struct ProposalView {
    pub token_owner_record: Seq<u8>,
    pub options: Seq<ProposalOption>,
}

impl View for Proposal {
    type V = ProposalView;

    open spec fn view(&self) -> ProposalView {
        ProposalView { token_owner_record: self.token_owner_record@, options: self.options@ }
    }
}

/// The token-owner-record fields the actions read.
#[derive(Clone, Copy, Debug)]
pub struct TokenOwnerRecord {
    /// The wallet that owns the deposited governing tokens.
    pub governing_token_owner: Addr,
}

/// Mathematical value of a [`TokenOwnerRecord`].
#[verifier::ext_equal]
pub struct TokenOwnerRecordView {
    pub governing_token_owner: Seq<u8>,
}

impl View for TokenOwnerRecord {
    type V = TokenOwnerRecordView;

    open spec fn view(&self) -> TokenOwnerRecordView {
        TokenOwnerRecordView { governing_token_owner: self.governing_token_owner@ }
    }
}

/// The proposal-transaction fields the execute action reads: the attached
/// instruction bundle.
#[derive(Clone, Debug)]
pub struct ProposalTransaction {
    pub instructions: Vec<Instr>,
}

/// Mathematical value of a [`ProposalTransaction`].
#[verifier::ext_equal]
pub struct ProposalTransactionView {
    pub instructions: Seq<InstrView>,
}

impl View for ProposalTransaction {
    type V = ProposalTransactionView;

    open spec fn view(&self) -> ProposalTransactionView {
        ProposalTransactionView { instructions: self.instructions.deep_view() }
    }
}

// ---------------------------------------------------------------------------
// Upgrade buffers
// ---------------------------------------------------------------------------

/// A discovered upgrade-buffer account that its authority can close.
#[derive(Clone, Copy, Debug)]
pub struct UpgradeableBuffer {
    pub address: Addr,
    pub authority: Addr,
    pub data_len: usize,
    pub lamports: u64,
}

/// Mathematical value of an [`UpgradeableBuffer`].
#[verifier::ext_equal]
pub struct UpgradeableBufferView {
    pub address: Seq<u8>,
    pub authority: Seq<u8>,
    pub data_len: int,
    pub lamports: u64,
}

impl View for UpgradeableBuffer {
    type V = UpgradeableBufferView;

    open spec fn view(&self) -> UpgradeableBufferView {
        UpgradeableBufferView {
            address: self.address@,
            authority: self.authority@,
            data_len: self.data_len as int,
            lamports: self.lamports,
        }
    }
}

impl DeepView for UpgradeableBuffer {
    type V = UpgradeableBufferView;

    open spec fn deep_view(&self) -> UpgradeableBufferView {
        self.view()
    }
}

} // verus!
