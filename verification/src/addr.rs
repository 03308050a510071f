//! Account addresses as plain 32-byte values, and the well-known protocol
//! addresses the instruction builders need.

use vstd::prelude::*;

verus! {

/// A ledger account address: 32 raw bytes.
#[derive(Clone, Copy, Debug)]
pub struct Addr(pub [u8; 32]);

impl View for Addr {
    type V = Seq<u8>;

    open spec fn view(&self) -> Seq<u8> {
        self.0@
    }
}

impl DeepView for Addr {
    type V = Seq<u8>;

    open spec fn deep_view(&self) -> Seq<u8> {
        self.0@
    }
}

impl PartialEq for Addr {
    fn eq(&self, other: &Addr) -> (r: bool) {
        let mut i: usize = 0;
        while i < 32
            invariant
                i <= 32,
                forall|j: int| 0 <= j < i ==> self.0@[j] == other.0@[j],
            decreases 32 - i,
        {
            if self.0[i] != other.0[i] {
                return false;
            }
            i = i + 1;
        }
        proof {
            assert(self.0@ =~= other.0@);
        }
        true
    }
}

impl vstd::std_specs::cmp::PartialEqSpecImpl for Addr {
    open spec fn obeys_eq_spec() -> bool {
        true
    }

    open spec fn eq_spec(&self, other: &Addr) -> bool {
        self.0@ == other.0@
    }
}

/// Address of the upgradeable loader program
/// ("BPFLoaderUpgradeab1e11111111111111111111111").
pub open spec fn spec_bpf_loader_upgradeable_id() -> Seq<u8> {
    seq![
        2u8, 168, 246, 145, 78, 136, 161, 176, 226, 16, 21, 62, 247, 99, 174, 43, 0, 194, 185, 61,
        22, 193, 36, 210, 192, 83, 122, 16, 4, 128, 0, 0,
    ]
}

/// Address of the rent sysvar
/// ("SysvarRent111111111111111111111111111111111").
pub open spec fn spec_rent_sysvar_id() -> Seq<u8> {
    seq![
        6u8, 167, 213, 23, 25, 44, 92, 81, 33, 140, 201, 76, 61, 74, 241, 127, 88, 218, 238, 8,
        155, 161, 253, 68, 227, 219, 217, 138, 0, 0, 0, 0,
    ]
}

/// Address of the clock sysvar
/// ("SysvarC1ock11111111111111111111111111111111").
pub open spec fn spec_clock_sysvar_id() -> Seq<u8> {
    seq![
        6u8, 167, 213, 23, 24, 199, 116, 201, 40, 86, 99, 152, 105, 29, 94, 182, 139, 94, 184, 163,
        155, 75, 109, 92, 115, 85, 91, 33, 0, 0, 0, 0,
    ]
}

/// The upgradeable loader program's address.
pub fn bpf_loader_upgradeable_id() -> (r: Addr)
    ensures
        r@ == spec_bpf_loader_upgradeable_id(),
{
    let a: [u8; 32] = [
        2u8, 168, 246, 145, 78, 136, 161, 176, 226, 16, 21, 62, 247, 99, 174, 43, 0, 194, 185, 61,
        22, 193, 36, 210, 192, 83, 122, 16, 4, 128, 0, 0,
    ];
    proof {
        assert(a@ =~= spec_bpf_loader_upgradeable_id());
    }
    Addr(a)
}

/// The rent sysvar's address.
pub fn rent_sysvar_id() -> (r: Addr)
    ensures
        r@ == spec_rent_sysvar_id(),
{
    let a: [u8; 32] = [
        6u8, 167, 213, 23, 25, 44, 92, 81, 33, 140, 201, 76, 61, 74, 241, 127, 88, 218, 238, 8,
        155, 161, 253, 68, 227, 219, 217, 138, 0, 0, 0, 0,
    ];
    proof {
        assert(a@ =~= spec_rent_sysvar_id());
    }
    Addr(a)
}

/// The clock sysvar's address.
pub fn clock_sysvar_id() -> (r: Addr)
    ensures
        r@ == spec_clock_sysvar_id(),
{
    let a: [u8; 32] = [
        6u8, 167, 213, 23, 24, 199, 116, 201, 40, 86, 99, 152, 105, 29, 94, 182, 139, 94, 184, 163,
        155, 75, 109, 92, 115, 85, 91, 33, 0, 0, 0, 0,
    ];
    proof {
        assert(a@ =~= spec_clock_sysvar_id());
    }
    Addr(a)
}

} // verus!
