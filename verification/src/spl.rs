//! Shared declarations for the governance client library's types, and the
//! conversions between its values and this crate's plain representations.

use vstd::prelude::*;
use crate::addr::Addr;
use crate::model::{AccountEntry, Instr};
use solana_program::instruction::Instruction;
use solana_program::pubkey::Pubkey;

verus! {

#[verifier::external_type_specification]
#[verifier::external_body]
pub struct ExPubkey(Pubkey);

#[verifier::external_type_specification]
#[verifier::external_body]
pub struct ExInstruction(Instruction);

/// Converts an address into the client library's key type, byte for byte.
#[verifier::external_body]
pub(crate) fn pk(a: &Addr) -> Pubkey {
    Pubkey::new_from_array(a.0)
}

/// Converts one of the client library's instructions into this crate's
/// plain representation, field for field.
#[verifier::external_body]
pub(crate) fn instr_from(ix: Instruction) -> Instr {
    Instr {
        program_id: Addr(ix.program_id.to_bytes()),
        accounts: ix.accounts.iter().map(|a| AccountEntry {
            pubkey: Addr(a.pubkey.to_bytes()),
            is_signer: a.is_signer,
            is_writable: a.is_writable,
        }).collect(),
        data: ix.data,
    }
}

} // verus!
