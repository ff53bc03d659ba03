//! Fixed-size byte strings and the hash functions over them.

use vstd::prelude::*;
use crate::encode::append;

verus! {

pub type H32 = [u8; 4];

pub type H160 = [u8; 20];

pub type H256 = [u8; 32];

pub type H264 = [u8; 33];

/// The SHA-256 digest of a byte string.
pub uninterp spec fn sha256(data: Seq<u8>) -> Seq<u8>;

/// The RIPEMD-160 digest of the SHA-256 digest of a byte string.
pub uninterp spec fn hash160(data: Seq<u8>) -> Seq<u8>;

/// Calls `bitcoin::hashes::sha256::Hash::hash`. Trusted: the 32 bytes returned
/// are the SHA-256 digest of `data`, the same for the same bytes.
#[verifier::external_body]
pub(crate) fn sha256_digest(data: &[u8]) -> (digest: H256)
    ensures
        digest@ == sha256(data@),
{
    let h = <bitcoin::hashes::sha256::Hash as bitcoin::hashes::Hash>::hash(data);
    bitcoin::hashes::Hash::to_byte_array(h)
}

/// Calls `bitcoin::hashes::hash160::Hash::hash`. Trusted: the 20 bytes returned
/// are RIPEMD-160 of SHA-256 of `data`, the same for the same bytes.
#[verifier::external_body]
pub(crate) fn hash160_digest(data: &[u8]) -> (digest: H160)
    ensures
        digest@ == hash160(data@),
{
    let h = <bitcoin::hashes::hash160::Hash as bitcoin::hashes::Hash>::hash(data);
    bitcoin::hashes::Hash::to_byte_array(h)
}

/// The tagged hash of BIP-340: SHA-256 over the tag's digest, twice, and the message.
pub open spec fn tagged_hash(tag: Seq<u8>, message: Seq<u8>) -> Seq<u8> {
    sha256(sha256(tag) + sha256(tag) + message)
}

/// The bytes of `TapLeaf`.
pub open spec fn tag_tap_leaf() -> Seq<u8> {
    seq![0x54u8, 0x61u8, 0x70u8, 0x4cu8, 0x65u8, 0x61u8, 0x66u8]
}

/// The bytes of `TapBranch`.
pub open spec fn tag_tap_branch() -> Seq<u8> {
    seq![0x54u8, 0x61u8, 0x70u8, 0x42u8, 0x72u8, 0x61u8, 0x6eu8, 0x63u8, 0x68u8]
}

/// The bytes of `TapTweak`.
pub open spec fn tag_tap_tweak() -> Seq<u8> {
    seq![0x54u8, 0x61u8, 0x70u8, 0x54u8, 0x77u8, 0x65u8, 0x61u8, 0x6bu8]
}

/// The bytes of `TapSighash`.
pub open spec fn tag_tap_sighash() -> Seq<u8> {
    seq![0x54u8, 0x61u8, 0x70u8, 0x53u8, 0x69u8, 0x67u8, 0x68u8, 0x61u8, 0x73u8, 0x68u8]
}

/// Which of the tagged hashes of taproot.
#[derive(Clone, Copy, Debug, PartialEq, Eq, Structural)]
pub enum Tag {
    TapLeaf,
    TapBranch,
    TapTweak,
    TapSighash,
}

impl Tag {
    /// The tag's ASCII bytes.
    pub open spec fn spec_bytes(self) -> Seq<u8> {
        match self {
            Tag::TapLeaf => tag_tap_leaf(),
            Tag::TapBranch => tag_tap_branch(),
            Tag::TapTweak => tag_tap_tweak(),
            Tag::TapSighash => tag_tap_sighash(),
        }
    }

    /// The tag's ASCII bytes.
    pub fn bytes(self) -> (out: Vec<u8>)
        ensures
            out@ == self.spec_bytes(),
    {
        let out = match self {
            Tag::TapLeaf => vec![0x54u8, 0x61u8, 0x70u8, 0x4cu8, 0x65u8, 0x61u8, 0x66u8],
            Tag::TapBranch => vec![
                0x54u8, 0x61u8, 0x70u8, 0x42u8, 0x72u8, 0x61u8, 0x6eu8, 0x63u8, 0x68u8,
            ],
            Tag::TapTweak => vec![0x54u8, 0x61u8, 0x70u8, 0x54u8, 0x77u8, 0x65u8, 0x61u8, 0x6bu8],
            Tag::TapSighash => vec![
                0x54u8, 0x61u8, 0x70u8, 0x53u8, 0x69u8, 0x67u8, 0x68u8, 0x61u8, 0x73u8, 0x68u8,
            ],
        };
        assert(out@ =~= self.spec_bytes());
        out
    }
}

/// The tagged hash of `message` under `tag`.
pub fn tagged_hash_digest(tag: Tag, message: &[u8]) -> (digest: H256)
    ensures
        digest@ == tagged_hash(tag.spec_bytes(), message@),
{
    let tag_bytes = tag.bytes();
    let tag_digest = sha256_digest(tag_bytes.as_slice());
    let mut preimage: Vec<u8> = Vec::new();
    append(&mut preimage, tag_digest.as_slice());
    append(&mut preimage, tag_digest.as_slice());
    append(&mut preimage, message);
    assert(preimage@ =~= sha256(tag.spec_bytes()) + sha256(tag.spec_bytes()) + message@);
    sha256_digest(preimage.as_slice())
}

/// The array of `N` bytes that `data` holds, where it holds exactly `N`.
pub fn array_from_slice<const N: usize>(data: &[u8]) -> (out: Option<[u8; N]>)
    ensures
        out is Some <==> data@.len() == N,
        out matches Some(a) ==> a@ == data@,
{
    if data.len() != N {
        return None;
    }
    let mut out: [u8; N] = [0u8; N];
    let mut i: usize = 0;
    while i < N
        invariant
            data@.len() == N,
            i <= N,
            forall|j: int| 0 <= j < i ==> out@[j] == data@[j],
        decreases N - i,
    {
        out[i] = data[i];
        i += 1;
    }
    assert(out@ =~= data@);
    Some(out)
}

/// The `N` bytes of `data` from position `start` on.
pub fn copy_range<const N: usize>(data: &[u8], start: usize) -> (out: [u8; N])
    requires
        start + N <= data@.len(),
    ensures
        out@ == data@.subrange(start as int, start + N),
{
    let mut out: [u8; N] = [0u8; N];
    let len: usize = data.len();
    let mut i: usize = 0;
    while i < N
        invariant
            start + N <= data@.len(),
            data@.len() == len,
            i <= N,
            forall|j: int| 0 <= j < i ==> out@[j] == data@[start + j],
        decreases N - i,
    {
        out[i] = data[start + i];
        i += 1;
    }
    assert(out@ =~= data@.subrange(start as int, start + N));
    out
}

/// Whether two byte strings hold the same bytes.
pub fn bytes_eq(a: &[u8], b: &[u8]) -> (same: bool)
    ensures
        same == (a@ == b@),
{
    if a.len() != b.len() {
        return false;
    }
    let mut i: usize = 0;
    while i < a.len()
        invariant
            a@.len() == b@.len(),
            i <= a@.len(),
            forall|j: int| 0 <= j < i ==> a@[j] == b@[j],
        decreases a@.len() - i,
    {
        if a[i] != b[i] {
            return false;
        }
        i += 1;
    }
    assert(a@ =~= b@);
    true
}

} // verus!
