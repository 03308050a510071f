//! Derivation of program-controlled addresses from seed tuples.
//!
//! The governance ledger derives the same addresses independently from the
//! same seeds, so correctness here means agreeing with the ledger's own
//! algorithm: each derivation is delegated to the governance client
//! library and named as an opaque function of its seeds.

use vstd::prelude::*;
use crate::addr::Addr;
use crate::bytes::{spec_u16_le, spec_u32_le, spec_u8_le, u16_le_bytes, u32_le_bytes, u8_le_bytes};
use crate::spl::pk;
use spl_governance::state::proposal::get_proposal_address;
use spl_governance::state::proposal_transaction::get_proposal_transaction_address;
use spl_governance::state::token_owner_record::get_token_owner_record_address;

verus! {

/// The token-owner-record address derived from (program, realm, governing
/// mint, owner wallet).
pub uninterp spec fn tor_addr_of(program: Seq<u8>, realm: Seq<u8>, mint: Seq<u8>, owner: Seq<u8>) -> Seq<u8>;

/// The proposal address derived from (program, governance, governing mint,
/// little-endian proposal index).
pub uninterp spec fn proposal_addr_of(program: Seq<u8>, governance: Seq<u8>, mint: Seq<u8>, index_le: Seq<u8>) -> Seq<u8>;

/// The proposal-transaction address derived from (program, proposal,
/// little-endian option index, little-endian transaction index).
pub uninterp spec fn proposal_tx_addr_of(program: Seq<u8>, proposal: Seq<u8>, option_le: Seq<u8>, index_le: Seq<u8>) -> Seq<u8>;

/// Relies on spl_governance::state::token_owner_record::get_token_owner_record_address:
/// the derived address depends on the program id and the three seed keys
/// alone.
#[verifier::external_body]
fn tor_addr_call(program: &Addr, realm: &Addr, mint: &Addr, owner: &Addr) -> (r: Addr)
    ensures
        r@ == tor_addr_of(program@, realm@, mint@, owner@),
{
    Addr(get_token_owner_record_address(&pk(program), &pk(realm), &pk(mint), &pk(owner)).to_bytes())
}

/// Relies on spl_governance::state::proposal::get_proposal_address: the
/// derived address depends on the program id and the three seeds alone.
/// The index seed is kept to its 4-byte width, within the ledger's seed
/// length bound.
#[verifier::external_body]
fn proposal_addr_call(program: &Addr, governance: &Addr, mint: &Addr, index_le: &Vec<u8>) -> (r: Addr)
    requires
        index_le@.len() == 4,
    ensures
        r@ == proposal_addr_of(program@, governance@, mint@, index_le@),
{
    Addr(get_proposal_address(&pk(program), &pk(governance), &pk(mint), index_le.as_slice()).to_bytes())
}

/// Relies on spl_governance::state::proposal_transaction::get_proposal_transaction_address:
/// the derived address depends on the program id and the three seeds
/// alone.
#[verifier::external_body]
fn proposal_tx_addr_call(program: &Addr, proposal: &Addr, option_le: &Vec<u8>, index_le: &Vec<u8>) -> (r: Addr)
    requires
        option_le@.len() == 1,
        index_le@.len() == 2,
    ensures
        r@ == proposal_tx_addr_of(program@, proposal@, option_le@, index_le@),
{
    let o: [u8; 1] = [option_le[0]];
    let ix: [u8; 2] = [index_le[0], index_le[1]];
    Addr(get_proposal_transaction_address(&pk(program), &pk(proposal), &o, &ix).to_bytes())
}

/// Derives the token-owner-record address of `owner`'s stake in `realm`
/// for the governing `mint`.
pub fn token_owner_record_address(program: &Addr, realm: &Addr, mint: &Addr, owner: &Addr) -> (r: Addr)
    ensures
        r@ == tor_addr_of(program@, realm@, mint@, owner@),
{
    tor_addr_call(program, realm, mint, owner)
}

/// Derives the address of the proposal with the given index under
/// `governance` for the governing `mint`.
pub fn proposal_address(program: &Addr, governance: &Addr, mint: &Addr, proposal_index: u32) -> (r: Addr)
    ensures
        r@ == proposal_addr_of(program@, governance@, mint@, spec_u32_le(proposal_index)),
{
    let index_le = u32_le_bytes(proposal_index);
    proposal_addr_call(program, governance, mint, &index_le)
}

/// Derives the address of the transaction record at (option, index) under
/// a proposal.
pub fn proposal_transaction_address(program: &Addr, proposal: &Addr, option_index: u8, index: u16) -> (r: Addr)
    ensures
        r@ == proposal_tx_addr_of(program@, proposal@, spec_u8_le(option_index), spec_u16_le(index)),
{
    let option_le = u8_le_bytes(option_index);
    let index_le = u16_le_bytes(index);
    proposal_tx_addr_call(program, proposal, &option_le, &index_le)
}

/// Address derivation is a pure function: identical program id and seeds
/// always yield the identical address, for each of the three address
/// kinds.
pub proof fn lemma_derivation_deterministic(
    program: Seq<u8>,
    a: Seq<u8>,
    b: Seq<u8>,
    c: Seq<u8>,
    program2: Seq<u8>,
    a2: Seq<u8>,
    b2: Seq<u8>,
    c2: Seq<u8>,
)
    requires
        program == program2,
        a == a2,
        b == b2,
        c == c2,
    ensures
        tor_addr_of(program, a, b, c) == tor_addr_of(program2, a2, b2, c2),
        proposal_addr_of(program, a, b, c) == proposal_addr_of(program2, a2, b2, c2),
        proposal_tx_addr_of(program, a, b, c) == proposal_tx_addr_of(program2, a2, b2, c2),
{
}

} // verus!
