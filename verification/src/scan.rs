//! Discovery of closable upgrade buffers.
//!
//! The scan issues one bulk account query with byte-range equality
//! predicates; the query itself is remote I/O and happens outside this
//! crate. This module states which predicates to send, how much of each
//! account to request, and how the returned matches are decoded and
//! filtered into buffer summaries.

use vstd::prelude::*;
use crate::addr::Addr;
use crate::decode::{decode_buffer_header, spec_decode_buffer};
use crate::model::{UpgradeableBuffer, UpgradeableBufferView};
use vstd::slice::slice_to_vec;

verus! {

/// Width of the 4-byte state tag.
pub const ACCOUNT_TYPE_SIZE: usize = 4;

/// Width of a slot counter in the loader's program-data layout.
pub const SLOT_SIZE: usize = 8;

/// Width of an option's presence flag.
pub const OPTION_FLAG_SIZE: usize = 1;

/// Width of an account address.
pub const PUBKEY_LEN: usize = 32;

/// Caller-supplied arguments of the buffer scan.
#[derive(Clone, Copy, Debug)]
pub struct GetBuffersArgs {
    /// Only buffers whose authority is this identity match.
    pub authority: Addr,
}

impl From<crate::actions::CloseBuffersArgs> for GetBuffersArgs {
    fn from(args: crate::actions::CloseBuffersArgs) -> (r: GetBuffersArgs) {
        GetBuffersArgs { authority: args.authority }
    }
}

impl vstd::std_specs::convert::FromSpecImpl<crate::actions::CloseBuffersArgs> for GetBuffersArgs {
    open spec fn obeys_from_spec() -> bool {
        true
    }

    open spec fn from_spec(args: crate::actions::CloseBuffersArgs) -> GetBuffersArgs {
        GetBuffersArgs { authority: args.authority }
    }
}

/// One byte-range equality predicate of the bulk query: the account's
/// bytes at `offset` must equal `bytes`.
#[derive(Clone, Debug)]
pub struct ByteFilter {
    pub offset: usize,
    pub bytes: Vec<u8>,
}

/// Mathematical value of a [`ByteFilter`].
#[verifier::ext_equal]
pub struct ByteFilterView {
    pub offset: int,
    pub bytes: Seq<u8>,
}

impl View for ByteFilter {
    type V = ByteFilterView;

    open spec fn view(&self) -> ByteFilterView {
        ByteFilterView { offset: self.offset as int, bytes: self.bytes@ }
    }
}

impl DeepView for ByteFilter {
    type V = ByteFilterView;

    open spec fn deep_view(&self) -> ByteFilterView {
        self.view()
    }
}

/// The scan's three predicates: the "Buffer" state tag at offset 0, the
/// authority-present flag right after it, and the authority identity
/// right after that.
pub open spec fn spec_scan_filters(authority: Seq<u8>) -> Seq<ByteFilterView> {
    seq![
        ByteFilterView { offset: 0, bytes: seq![1u8, 0u8, 0u8, 0u8] },
        ByteFilterView { offset: 4, bytes: seq![1u8] },
        ByteFilterView { offset: 5, bytes: authority },
    ]
}

/// Builds the byte-range predicates that select buffers owned by the
/// given authority.
pub fn buffer_scan_filters(args: &GetBuffersArgs) -> (r: Vec<ByteFilter>)
    ensures
        r.deep_view() == spec_scan_filters(args.authority@),
{
    let mut tag: Vec<u8> = Vec::new();
    tag.push(1u8);
    tag.push(0u8);
    tag.push(0u8);
    tag.push(0u8);
    let mut flag: Vec<u8> = Vec::new();
    flag.push(1u8);
    let key: Vec<u8> = slice_to_vec(args.authority.0.as_slice());
    let mut r: Vec<ByteFilter> = Vec::new();
    r.push(ByteFilter { offset: 0, bytes: tag });
    r.push(ByteFilter { offset: ACCOUNT_TYPE_SIZE, bytes: flag });
    r.push(ByteFilter { offset: ACCOUNT_TYPE_SIZE + OPTION_FLAG_SIZE, bytes: key });
    proof {
        assert(r.deep_view() =~~= spec_scan_filters(args.authority@));
    }
    r
}

/// How many bytes of each matching account the scan requests: the state
/// tag and the authority section, never the arbitrarily large payload.
pub fn buffer_slice_length() -> (r: usize)
    ensures
        r == 45,
{
    ACCOUNT_TYPE_SIZE + SLOT_SIZE + OPTION_FLAG_SIZE + PUBKEY_LEN
}

/// One matching account as the bulk query returns it: its address, the
/// requested byte slice, and its balance.
#[derive(Clone, Debug)]
pub struct BufferAccount {
    pub address: Addr,
    pub data: Vec<u8>,
    pub lamports: u64,
}

/// Mathematical value of a [`BufferAccount`].
#[verifier::ext_equal]
pub struct BufferAccountView {
    pub address: Seq<u8>,
    pub data: Seq<u8>,
    pub lamports: u64,
}

impl View for BufferAccount {
    type V = BufferAccountView;

    open spec fn view(&self) -> BufferAccountView {
        BufferAccountView { address: self.address@, data: self.data@, lamports: self.lamports }
    }
}

impl DeepView for BufferAccount {
    type V = BufferAccountView;

    open spec fn deep_view(&self) -> BufferAccountView {
        self.view()
    }
}

/// A scan aborted on an account whose bytes did not decode as buffer
/// state; the address identifies the offender.
#[derive(Clone, Copy, Debug)]
pub struct ScanFailure {
    pub address: Addr,
}

/// What collecting the matches yields: the buffer summaries of every
/// match with an authority, in query order, skipping matches whose
/// authority is absent — or the address of the first match that does not
/// decode.
pub open spec fn spec_collect_buffers(entries: Seq<BufferAccountView>) -> Result<Seq<UpgradeableBufferView>, Seq<u8>>
    decreases entries.len(),
{
    if entries.len() == 0 {
        Ok(Seq::empty())
    } else {
        let first = entries[0];
        match spec_decode_buffer(first.data) {
            None => Err(first.address),
            Some(h) => match spec_collect_buffers(entries.drop_first()) {
                Err(a) => Err(a),
                Ok(rest) => match h.authority {
                    None => Ok(rest),
                    Some(auth) => Ok(
                        seq![
                            UpgradeableBufferView {
                                address: first.address,
                                authority: auth,
                                data_len: first.data.len() as int,
                                lamports: first.lamports,
                            },
                        ] + rest,
                    ),
                },
            },
        }
    }
}

/// Decodes every match of the scan into a buffer summary. A match whose
/// authority flag says "absent" cannot be closed and is skipped; a match
/// that does not decode aborts the whole scan, identifying its address.
pub fn collect_buffers(entries: &Vec<BufferAccount>) -> (r: Result<Vec<UpgradeableBuffer>, ScanFailure>)
    ensures
        match r {
            Ok(v) => spec_collect_buffers(entries.deep_view()) == Ok::<_, Seq<u8>>(v.deep_view()),
            Err(f) => spec_collect_buffers(entries.deep_view()) == Err::<Seq<UpgradeableBufferView>, _>(f.address@),
        },
{
    let ghost all = entries.deep_view();
    let mut out: Vec<UpgradeableBuffer> = Vec::new();
    let mut i: usize = 0;
    proof {
        assert(all.skip(0) =~= all);
        assert(out.deep_view() =~= Seq::<UpgradeableBufferView>::empty());
        match spec_collect_buffers(all) {
            Ok(rest) => {
                assert(out.deep_view() + rest =~= rest);
            },
            Err(_) => {},
        }
    }
    while i < entries.len()
        invariant
            i <= entries.len(),
            all == entries.deep_view(),
            spec_collect_buffers(all) == (match spec_collect_buffers(all.skip(i as int)) {
                Err(a) => Err::<Seq<UpgradeableBufferView>, Seq<u8>>(a),
                Ok(rest) => Ok(out.deep_view() + rest),
            }),
        decreases entries.len() - i,
    {
        let entry = &entries[i];
        proof {
            assert(all.skip(i as int).len() >= 1);
            assert(all.skip(i as int)[0] == all[i as int]);
            assert(all.skip(i as int).drop_first() =~= all.skip(i + 1));
        }
        match decode_buffer_header(&entry.data) {
            Err(_) => {
                return Err(ScanFailure { address: entry.address });
            },
            Ok(header) => {
                match header.authority {
                    None => {},
                    Some(authority) => {
                        let b = UpgradeableBuffer {
                            address: entry.address,
                            authority,
                            data_len: entry.data.len(),
                            lamports: entry.lamports,
                        };
                        let ghost prev = out.deep_view();
                        out.push(b);
                        proof {
                            assert(out.deep_view() =~= prev.push(b.deep_view()));
                            match spec_collect_buffers(all.skip(i + 1)) {
                                Ok(rest) => {
                                    assert(prev + (seq![b.deep_view()] + rest) =~= out.deep_view()
                                        + rest);
                                },
                                Err(_) => {},
                            }
                        }
                    },
                }
            },
        }
        i = i + 1;
    }
    proof {
        assert(all.skip(entries.len() as int) =~= Seq::<BufferAccountView>::empty());
        assert(out.deep_view() + Seq::<UpgradeableBufferView>::empty() =~= out.deep_view());
    }
    Ok(out)
}

} // verus!
