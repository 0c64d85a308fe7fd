//! Block headers as the crawler reads them, and decoding of stored records.

use parity_scale_codec::Decode;
use sp_runtime::generic::Header as ChainHeader;
use sp_runtime::traits::BlakeTwo256;
use vstd::prelude::*;

verus! {

/// Height of a block.
pub type BlockNumber = u32;

/// A 256-bit block hash.
pub type BlockHash = [u8; 32];

/// What the crawler reads of a block header: its height, the hash of its
/// parent, and its own hash.
#[derive(Clone, Copy, Debug, PartialEq, Eq)]
pub struct Header {
    pub number: BlockNumber,
    pub parent_hash: BlockHash,
    pub hash: BlockHash,
}

/// The header that a stored record decodes to, `None` where the bytes are no
/// header. Decoding reads a prefix of the record; the hash is the BLAKE2b-256
/// digest of the decoded header's canonical encoding.
pub uninterp spec fn decoded_header(data: Seq<u8>) -> Option<Header>;

/// `child` names `parent` as the block it was built on.
pub open spec fn linked(parent: Header, child: Header) -> bool {
    parent.hash@ == child.parent_hash@
}

/// Decodes a stored record with `Decode::decode` of `parity-scale-codec` for
/// `sp_runtime::generic::Header<u32, BlakeTwo256>` and hashes the outcome with
/// that header's `hash`.
///
/// Trusted: the result is a function of the bytes alone, named
/// [`decoded_header`]. Nothing else is claimed of it.
#[verifier::external_body]
pub(crate) fn decode_record(data: &[u8]) -> (out: Option<Header>)
    ensures
        out == decoded_header(data@),
{
    match ChainHeader::<u32, BlakeTwo256>::decode(&mut &data[..]) {
        Ok(h) => Some(Header { number: h.number, parent_hash: h.parent_hash.0, hash: h.hash().0 }),
        Err(_) => None,
    }
}

/// Tells whether two hashes hold the same bytes.
pub fn same_hash(a: &BlockHash, b: &BlockHash) -> (out: bool)
    ensures
        out == (a@ == b@),
{
    let mut i: usize = 0;
    while i < 32
        invariant
            i <= 32,
            forall|k: int| 0 <= k < i ==> a@[k] == b@[k],
        decreases 32 - i,
    {
        if a[i] != b[i] {
            return false;
        }
        i += 1;
    }
    assert(a@ =~= b@);
    true
}

/// Tells whether `child` names `parent` as the block it was built on.
pub fn is_linked(parent: &Header, child: &Header) -> (out: bool)
    ensures
        out == linked(*parent, *child),
{
    same_hash(&parent.hash, &child.parent_hash)
}

} // verus!
