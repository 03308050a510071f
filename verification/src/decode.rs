//! Decoding of raw account bytes.
//!
//! Loader buffer state has a fixed low-level layout and is decoded here,
//! field by field, against an exact specification. Governance records use
//! the governance program's structured serialization and are decoded
//! through it (see the trusted items below).

use vstd::prelude::*;
use crate::addr::Addr;
use crate::error::GovError;
use crate::model::{Governance, GovConfig, Proposal, ProposalOption, ProposalTransaction,
    ProposalTransactionView, ProposalView, Realm, RealmView, TokenOwnerRecord,
    TokenOwnerRecordView, VoteThreshold, VoteTipping, Instr, AccountEntry};
use borsh::BorshDeserialize;
use spl_governance::state::enums::VoteThresholdPercentage as SplThreshold;
use spl_governance::state::enums::VoteTipping as SplTipping;
use spl_governance::state::governance::GovernanceV2;
use spl_governance::state::proposal::ProposalV2;
use spl_governance::state::proposal_transaction::ProposalTransactionV2;
use spl_governance::state::realm::RealmV2;
use spl_governance::state::token_owner_record::TokenOwnerRecordV2;

verus! {

// ---------------------------------------------------------------------------
// Loader buffer state: wire layout
// ---------------------------------------------------------------------------
//
// A buffer account's bytes start with a 4-byte little-endian state tag.
// Tag 1 means "Buffer"; it is followed by a 1-byte authority-presence flag
// and, when the flag is 1, the 32-byte authority address. The program
// payload follows and is ignored here.

/// Offset of the authority-presence flag.
pub const BUFFER_FLAG_OFFSET: usize = 4;

/// Offset of the authority address, when present.
pub const BUFFER_AUTHORITY_OFFSET: usize = 5;

/// End offset of the authority address.
pub const BUFFER_AUTHORITY_END: usize = 37;

/// The decoded head of a loader buffer account: its optional authority.
#[derive(Clone, Copy, Debug)]
pub struct BufferHeader {
    pub authority: Option<Addr>,
}

/// Mathematical value of a [`BufferHeader`].
#[verifier::ext_equal]
pub struct BufferHeaderView {
    pub authority: Option<Seq<u8>>,
}

impl View for BufferHeader {
    type V = BufferHeaderView;

    open spec fn view(&self) -> BufferHeaderView {
        BufferHeaderView { authority: self.authority.deep_view() }
    }
}

/// Whether the bytes begin with the 4-byte "Buffer" state tag.
pub open spec fn spec_has_buffer_tag(s: Seq<u8>) -> bool {
    s.len() >= 4 && s[0] == 1 && s[1] == 0 && s[2] == 0 && s[3] == 0
}

/// What decoding a buffer account's bytes yields: the header when the
/// layout matches, nothing when it does not.
pub open spec fn spec_decode_buffer(s: Seq<u8>) -> Option<BufferHeaderView> {
    if !spec_has_buffer_tag(s) || s.len() < 5 {
        None
    } else if s[4] == 0 {
        Some(BufferHeaderView { authority: None })
    } else if s[4] == 1 && s.len() >= 37 {
        Some(BufferHeaderView { authority: Some(s.subrange(5, 37)) })
    } else {
        None
    }
}

/// Decodes the head of a loader buffer account.
///
/// Succeeds exactly on bytes that carry the "Buffer" tag, a valid
/// authority flag, and, when the flag says so, a full 32-byte authority.
pub fn decode_buffer_header(data: &Vec<u8>) -> (r: Result<BufferHeader, GovError>)
    ensures
        match r {
            Ok(h) => spec_decode_buffer(data@) == Some(h@),
            Err(e) => spec_decode_buffer(data@) is None && e == GovError::DecodeError,
        },
{
    if data.len() < 5 {
        return Err(GovError::DecodeError);
    }
    if !(*data.get(0).unwrap() == 1 && *data.get(1).unwrap() == 0 && *data.get(2).unwrap() == 0
        && *data.get(3).unwrap() == 0) {
        return Err(GovError::DecodeError);
    }
    let flag = *data.get(4).unwrap();
    if flag == 0 {
        return Ok(BufferHeader { authority: None });
    }
    if flag != 1 || data.len() < 37 {
        return Err(GovError::DecodeError);
    }
    let mut key: [u8; 32] = [0u8; 32];
    let mut i: usize = 0;
    while i < 32
        invariant
            i <= 32,
            data@.len() >= 37,
            forall|j: int| 0 <= j < i ==> key@[j] == data@[5 + j],
        decreases 32 - i,
    {
        key[i] = *data.get(5 + i).unwrap();
        i = i + 1;
    }
    proof {
        assert(key@ =~= data@.subrange(5, 37));
    }
    Ok(BufferHeader { authority: Some(Addr(key)) })
}

/// Bytes whose leading 4-byte tag is anything but the "Buffer" tag never
/// decode, whatever follows.
pub proof fn lemma_non_buffer_tag_rejected(s: Seq<u8>)
    requires
        s.len() >= 4,
        !(s[0] == 1 && s[1] == 0 && s[2] == 0 && s[3] == 0),
    ensures
        spec_decode_buffer(s) is None,
{
}

// ---------------------------------------------------------------------------
// Governance records: structured decoding
// ---------------------------------------------------------------------------
//
// These records use the governance program's own serialization. Decoding
// is delegated to it; each decoder's result is a pure function of the
// bytes and is named below. A record that does not deserialize is a
// decode error.

/// The realm record encoded in the given bytes, projected to the fields
/// the actions read, or nothing when the bytes do not decode.
pub uninterp spec fn realm_of(bytes: Seq<u8>) -> Option<RealmView>;

/// The governance record encoded in the given bytes, or nothing.
pub uninterp spec fn governance_of(bytes: Seq<u8>) -> Option<Governance>;

/// The proposal record encoded in the given bytes, or nothing.
pub uninterp spec fn proposal_of(bytes: Seq<u8>) -> Option<ProposalView>;

/// The token-owner record encoded in the given bytes, or nothing.
pub uninterp spec fn token_owner_record_of(bytes: Seq<u8>) -> Option<TokenOwnerRecordView>;

/// The proposal-transaction record encoded in the given bytes, or
/// nothing.
pub uninterp spec fn proposal_transaction_of(bytes: Seq<u8>) -> Option<ProposalTransactionView>;

/// Relies on borsh deserialization of spl_governance's RealmV2: the
/// decoded record depends on the bytes alone; its community mint and
/// optional council mint are kept, field for field.
#[verifier::external_body]
pub fn decode_realm(data: &Vec<u8>) -> (r: Result<Realm, GovError>)
    ensures
        match r {
            Ok(v) => realm_of(data@) == Some(v@),
            Err(e) => realm_of(data@) is None && e == GovError::DecodeError,
        },
{
    match RealmV2::deserialize(&mut data.as_slice()) {
        Ok(v) => Ok(Realm {
            community_mint: Addr(v.community_mint.to_bytes()),
            council_mint: match v.config.council_mint {
                Some(k) => Some(Addr(k.to_bytes())),
                None => None,
            },
        }),
        Err(_) => Err(GovError::DecodeError),
    }
}

/// Relies on borsh deserialization of spl_governance's GovernanceV2: the
/// decoded record depends on the bytes alone; its proposal counter and
/// configuration are kept, field for field.
#[verifier::external_body]
pub fn decode_governance(data: &Vec<u8>) -> (r: Result<Governance, GovError>)
    ensures
        match r {
            Ok(v) => governance_of(data@) == Some(v),
            Err(e) => governance_of(data@) is None && e == GovError::DecodeError,
        },
{
    match GovernanceV2::deserialize(&mut data.as_slice()) {
        Ok(v) => Ok(Governance { proposals_count: v.proposals_count, config: GovConfig {
            vote_threshold: match v.config.vote_threshold_percentage { SplThreshold::YesVote(p) => VoteThreshold::YesVote(p), SplThreshold::Quorum(p) => VoteThreshold::Quorum(p) },
            min_community_weight_to_create_proposal: v.config.min_community_weight_to_create_proposal,
            min_transaction_hold_up_time: v.config.min_transaction_hold_up_time,
            max_voting_time: v.config.max_voting_time,
            vote_tipping: match v.config.vote_tipping { SplTipping::Strict => VoteTipping::Strict, SplTipping::Early => VoteTipping::Early, SplTipping::Disabled => VoteTipping::Disabled },
            proposal_cool_off_time: v.config.proposal_cool_off_time,
            min_council_weight_to_create_proposal: v.config.min_council_weight_to_create_proposal,
        } }),
        Err(_) => Err(GovError::DecodeError),
    }
}

/// Relies on borsh deserialization of spl_governance's ProposalV2: the
/// decoded record depends on the bytes alone; its owner record and each
/// option's next-transaction index are kept, field for field.
#[verifier::external_body]
pub fn decode_proposal(data: &Vec<u8>) -> (r: Result<Proposal, GovError>)
    ensures
        match r {
            Ok(v) => proposal_of(data@) == Some(v@),
            Err(e) => proposal_of(data@) is None && e == GovError::DecodeError,
        },
{
    match ProposalV2::deserialize(&mut data.as_slice()) {
        Ok(v) => Ok(Proposal {
            token_owner_record: Addr(v.token_owner_record.to_bytes()),
            options: v.options.iter().map(|o| ProposalOption {
                transactions_next_index: o.transactions_next_index,
            }).collect(),
        }),
        Err(_) => Err(GovError::DecodeError),
    }
}

/// Relies on borsh deserialization of spl_governance's TokenOwnerRecordV2:
/// the decoded record depends on the bytes alone; its governing token
/// owner is kept.
#[verifier::external_body]
pub fn decode_token_owner_record(data: &Vec<u8>) -> (r: Result<TokenOwnerRecord, GovError>)
    ensures
        match r {
            Ok(v) => token_owner_record_of(data@) == Some(v@),
            Err(e) => token_owner_record_of(data@) is None && e == GovError::DecodeError,
        },
{
    match TokenOwnerRecordV2::deserialize(&mut data.as_slice()) {
        Ok(v) => Ok(TokenOwnerRecord { governing_token_owner: Addr(v.governing_token_owner.to_bytes()) }),
        Err(_) => Err(GovError::DecodeError),
    }
}

/// Relies on borsh deserialization of spl_governance's
/// ProposalTransactionV2: the decoded record depends on the bytes alone;
/// its instruction list is kept, field for field.
#[verifier::external_body]
pub fn decode_proposal_transaction(data: &Vec<u8>) -> (r: Result<ProposalTransaction, GovError>)
    ensures
        match r {
            Ok(v) => proposal_transaction_of(data@) == Some(v@),
            Err(e) => proposal_transaction_of(data@) is None && e == GovError::DecodeError,
        },
{
    match ProposalTransactionV2::deserialize(&mut data.as_slice()) {
        Ok(v) => Ok(ProposalTransaction {
            instructions: v.instructions.iter().map(|i| Instr {
                program_id: Addr(i.program_id.to_bytes()),
                accounts: i.accounts.iter().map(|a| AccountEntry { pubkey: Addr(a.pubkey.to_bytes()), is_signer: a.is_signer, is_writable: a.is_writable }).collect(),
                data: i.data.clone(),
            }).collect(),
        }),
        Err(_) => Err(GovError::DecodeError),
    }
}

} // verus!
