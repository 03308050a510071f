//! Transaction-assembly and account-decoding engine for a DAO-style
//! program-upgrade workflow.
//!
//! The crate derives program-controlled addresses from seed tuples, decodes
//! raw account byte buffers (governance records and loader buffer state),
//! discovers closable upgrade buffers, and builds the ordered instruction
//! lists for each lifecycle action (propose, vote, execute, deposit,
//! withdraw, update-config, close-buffers). Network I/O, signing and
//! submission live outside this crate; every function here is a pure
//! computation over plain values.

use vstd::prelude::*;

pub mod actions;
pub mod addr;
pub mod builders;
pub mod bytes;
pub mod decode;
pub mod derive;
pub mod error;
pub mod instruction;
pub mod model;
pub mod scan;
pub mod spl;

verus! {

/// Network selector for an RPC session.
pub enum Cluster {
    Devnet,
    Mainnet,
}

impl Cluster {
    /// The cluster name as it appears in RPC moniker strings.
    pub open spec fn spec_label(&self) -> Seq<char> {
        match self {
            Cluster::Devnet => "devnet"@,
            Cluster::Mainnet => "mainnet-beta"@,
        }
    }

    /// Renders the cluster name ("devnet" or "mainnet-beta").
    pub fn label(&self) -> (r: String)
        ensures
            r@ == self.spec_label(),
    {
        match self {
            Cluster::Devnet => String::from_str("devnet"),
            Cluster::Mainnet => String::from_str("mainnet-beta"),
        }
    }
}

} // verus!
