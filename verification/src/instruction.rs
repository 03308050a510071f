//! The hand-built program-upgrade instruction.
//!
//! This is a bit-exact wire contract with the upgradeable loader: a fixed
//! seven-account layout and a 4-byte opcode naming "upgrade". It is built
//! and stated here byte for byte.

use vstd::prelude::*;
use crate::addr::{Addr, bpf_loader_upgradeable_id, clock_sysvar_id, rent_sysvar_id,
    spec_bpf_loader_upgradeable_id, spec_clock_sysvar_id, spec_rent_sysvar_id};
use crate::model::{AccountEntry, AccountEntryView, Instr, InstrView};

verus! {

/// The upgrade instruction's account list: program-data, program and
/// buffer writable; spill writable; rent and clock read-only; the upgrade
/// authority as a writable signer.
pub open spec fn spec_upgrade_accounts(
    program_data: Seq<u8>,
    program: Seq<u8>,
    source_buffer: Seq<u8>,
    spill_account: Seq<u8>,
    upgrade_authority: Seq<u8>,
) -> Seq<AccountEntryView> {
    seq![
        AccountEntryView { pubkey: program_data, is_signer: false, is_writable: true },
        AccountEntryView { pubkey: program, is_signer: false, is_writable: true },
        AccountEntryView { pubkey: source_buffer, is_signer: false, is_writable: true },
        AccountEntryView { pubkey: spill_account, is_signer: false, is_writable: true },
        AccountEntryView { pubkey: spec_rent_sysvar_id(), is_signer: false, is_writable: false },
        AccountEntryView { pubkey: spec_clock_sysvar_id(), is_signer: false, is_writable: false },
        AccountEntryView { pubkey: upgrade_authority, is_signer: true, is_writable: true },
    ]
}

/// The upgrade instruction, stated exactly: the loader's upgrade opcode
/// (variant 3, little-endian) over the seven accounts above.
pub open spec fn spec_upgrade_ix(
    program_data: Seq<u8>,
    program: Seq<u8>,
    source_buffer: Seq<u8>,
    spill_account: Seq<u8>,
    upgrade_authority: Seq<u8>,
) -> InstrView {
    InstrView {
        program_id: spec_bpf_loader_upgradeable_id(),
        accounts: spec_upgrade_accounts(program_data, program, source_buffer, spill_account,
            upgrade_authority),
        data: seq![3u8, 0u8, 0u8, 0u8],
    }
}

/// Builds the instruction that upgrades `program` from `source_buffer`,
/// paying leftover buffer balance to `spill_account`, signed by
/// `upgrade_authority`.
pub fn create_upgrade_program_instruction(
    program_data: &Addr,
    program: &Addr,
    source_buffer: &Addr,
    spill_account: &Addr,
    upgrade_authority: &Addr,
) -> (r: Instr)
    ensures
        r@ == spec_upgrade_ix(program_data@, program@, source_buffer@, spill_account@,
            upgrade_authority@),
{
    let mut accounts: Vec<AccountEntry> = Vec::new();
    accounts.push(AccountEntry { pubkey: *program_data, is_signer: false, is_writable: true });
    accounts.push(AccountEntry { pubkey: *program, is_signer: false, is_writable: true });
    accounts.push(AccountEntry { pubkey: *source_buffer, is_signer: false, is_writable: true });
    accounts.push(AccountEntry { pubkey: *spill_account, is_signer: false, is_writable: true });
    accounts.push(AccountEntry { pubkey: rent_sysvar_id(), is_signer: false, is_writable: false });
    accounts.push(AccountEntry { pubkey: clock_sysvar_id(), is_signer: false, is_writable: false });
    accounts.push(AccountEntry { pubkey: *upgrade_authority, is_signer: true, is_writable: true });
    let mut data: Vec<u8> = Vec::new();
    data.push(3u8);
    data.push(0u8);
    data.push(0u8);
    data.push(0u8);
    let r = Instr { program_id: bpf_loader_upgradeable_id(), accounts, data };
    proof {
        assert(r@.accounts =~= spec_upgrade_accounts(program_data@, program@, source_buffer@,
            spill_account@, upgrade_authority@));
        assert(r@.data =~= seq![3u8, 0u8, 0u8, 0u8]);
        assert(r@ =~= spec_upgrade_ix(program_data@, program@, source_buffer@, spill_account@,
            upgrade_authority@));
    }
    r
}

} // verus!
