//! Taproot script trees: leaf and branch hashes, Merkle paths and control blocks.

use vstd::prelude::*;
use crate::encode::{append, push_with_length_prefix, with_length_prefix};
use crate::hash::{tag_tap_branch, tag_tap_leaf, tagged_hash, tagged_hash_digest, Tag, H256};

verus! {

/// The leaf version of tapscript.
pub const LEAF_VERSION_TAPSCRIPT: u8 = 0xc0;

/// Whether `a` comes before `b` in lexicographic order of bytes, a proper
/// prefix coming before what it is a prefix of.
pub open spec fn lex_lt(a: Seq<u8>, b: Seq<u8>) -> bool
    decreases a.len(),
{
    if b.len() == 0 {
        false
    } else if a.len() == 0 {
        true
    } else if a[0] != b[0] {
        a[0] < b[0]
    } else {
        lex_lt(a.drop_first(), b.drop_first())
    }
}

/// No byte string comes before itself.
pub proof fn lemma_lex_irreflexive(a: Seq<u8>)
    ensures
        !lex_lt(a, a),
    decreases a.len(),
{
    if a.len() > 0 {
        lemma_lex_irreflexive(a.drop_first());
    }
}

/// Of two byte strings at most one comes before the other.
pub proof fn lemma_lex_asymmetric(a: Seq<u8>, b: Seq<u8>)
    ensures
        !(lex_lt(a, b) && lex_lt(b, a)),
    decreases a.len(),
{
    if a.len() > 0 && b.len() > 0 && a[0] == b[0] {
        lemma_lex_asymmetric(a.drop_first(), b.drop_first());
    }
}

/// The order is transitive.
pub proof fn lemma_lex_transitive(a: Seq<u8>, b: Seq<u8>, c: Seq<u8>)
    requires
        lex_lt(a, b),
        lex_lt(b, c),
    ensures
        lex_lt(a, c),
    decreases a.len(),
{
    if a.len() > 0 && b.len() > 0 && c.len() > 0 && a[0] == b[0] && b[0] == c[0] {
        lemma_lex_transitive(a.drop_first(), b.drop_first(), c.drop_first());
    }
}

/// Two byte strings of which neither comes before the other are equal.
pub proof fn lemma_lex_total(a: Seq<u8>, b: Seq<u8>)
    requires
        !lex_lt(a, b),
        !lex_lt(b, a),
    ensures
        a == b,
    decreases a.len(),
{
    if a.len() == 0 || b.len() == 0 {
        assert(a =~= b);
    } else {
        lemma_lex_total(a.drop_first(), b.drop_first());
        assert(a =~= seq![a[0]] + a.drop_first());
        assert(b =~= seq![b[0]] + b.drop_first());
    }
}

/// Whether `a` comes before `b` in lexicographic order.
pub fn lex_less(a: &[u8], b: &[u8]) -> (less: bool)
    ensures
        less == lex_lt(a@, b@),
{
    let mut i: usize = 0;
    assert(a@.skip(0) =~= a@);
    assert(b@.skip(0) =~= b@);
    while i < a.len() && i < b.len()
        invariant
            i <= a@.len(),
            i <= b@.len(),
            lex_lt(a@, b@) == lex_lt(a@.skip(i as int), b@.skip(i as int)),
        decreases a@.len() - i,
    {
        assert(a@.skip(i as int)[0] == a@[i as int]);
        assert(b@.skip(i as int)[0] == b@[i as int]);
        assert(a@.skip(i as int).drop_first() =~= a@.skip(i + 1));
        assert(b@.skip(i as int).drop_first() =~= b@.skip(i + 1));
        if a[i] != b[i] {
            return a[i] < b[i];
        }
        i += 1;
    }
    i < b.len()
}

/// The hash of a tapscript leaf: tagged `TapLeaf`, over the leaf version and
/// the script behind its length.
pub open spec fn tap_leaf_hash(script: Seq<u8>) -> Seq<u8> {
    tagged_hash(tag_tap_leaf(), seq![0xc0u8] + with_length_prefix(script))
}

/// The hash of a branch: tagged `TapBranch`, over the two children's hashes,
/// the one that comes first in lexicographic order first.
pub open spec fn tap_branch_hash(a: Seq<u8>, b: Seq<u8>) -> Seq<u8> {
    if lex_lt(b, a) {
        tagged_hash(tag_tap_branch(), b + a)
    } else {
        tagged_hash(tag_tap_branch(), a + b)
    }
}

/// The root that a leaf hash leads to along a Merkle path of sibling hashes,
/// the leaf's own sibling first.
pub open spec fn root_from_path(leaf_hash: Seq<u8>, path: Seq<H256>) -> Seq<u8>
    decreases path.len(),
{
    if path.len() == 0 {
        leaf_hash
    } else {
        root_from_path(tap_branch_hash(leaf_hash, path[0]@), path.drop_first())
    }
}

/// A branch's hash does not depend on the order of its two children.
pub proof fn lemma_branch_commutes(a: Seq<u8>, b: Seq<u8>)
    ensures
        tap_branch_hash(a, b) == tap_branch_hash(b, a),
{
    lemma_lex_asymmetric(a, b);
    if !lex_lt(a, b) && !lex_lt(b, a) {
        lemma_lex_total(a, b);
    }
}

/// The hash of the tapscript leaf that holds `script`.
pub fn leaf_hash(script: &[u8]) -> (digest: H256)
    ensures
        digest@ == tap_leaf_hash(script@),
{
    let mut message: Vec<u8> = Vec::new();
    message.push(LEAF_VERSION_TAPSCRIPT);
    push_with_length_prefix(&mut message, script);
    assert(message@ =~= seq![0xc0u8] + with_length_prefix(script@));
    tagged_hash_digest(Tag::TapLeaf, message.as_slice())
}

/// The hash of the branch over two children.
pub fn branch_hash(a: &H256, b: &H256) -> (digest: H256)
    ensures
        digest@ == tap_branch_hash(a@, b@),
{
    let mut message: Vec<u8> = Vec::new();
    if lex_less(b.as_slice(), a.as_slice()) {
        append(&mut message, b.as_slice());
        append(&mut message, a.as_slice());
        assert(message@ =~= b@ + a@);
    } else {
        append(&mut message, a.as_slice());
        append(&mut message, b.as_slice());
        assert(message@ =~= a@ + b@);
    }
    tagged_hash_digest(Tag::TapBranch, message.as_slice())
}

/// The root that `leaf` leads to along `path`.
pub fn compute_root(leaf: H256, path: &Vec<H256>) -> (root: H256)
    ensures
        root@ == root_from_path(leaf@, path@),
{
    let mut node: H256 = leaf;
    let mut i: usize = 0;
    assert(path@.skip(0) =~= path@);
    while i < path.len()
        invariant
            i <= path@.len(),
            root_from_path(leaf@, path@) == root_from_path(node@, path@.skip(i as int)),
        decreases path@.len() - i,
    {
        assert(path@.skip(i as int)[0] == path@[i as int]);
        assert(path@.skip(i as int).drop_first() =~= path@.skip(i + 1));
        node = branch_hash(&node, &path[i]);
        i += 1;
    }
    node
}

/// What a script-path spend reveals besides the script: the leaf version with
/// the parity of the output key, the internal key and the Merkle path.
#[derive(Debug)]
pub struct ControlBlock {
    pub leaf_version: u8,
    pub output_key_odd: bool,
    pub internal_key: H256,
    pub merkle_path: Vec<H256>,
}

/// The hashes of a path, one after the other.
pub open spec fn path_bytes(path: Seq<H256>) -> Seq<u8>
    decreases path.len(),
{
    if path.len() == 0 {
        Seq::empty()
    } else {
        path_bytes(path.drop_last()) + path.last()@
    }
}

impl ControlBlock {
    /// The control block's first byte: the leaf version, with its lowest bit
    /// set where the output key's y coordinate is odd.
    pub open spec fn spec_first_byte(&self) -> u8 {
        if self.output_key_odd && self.leaf_version % 2 == 0 {
            (self.leaf_version + 1) as u8
        } else {
            self.leaf_version
        }
    }

    /// The control block's bytes: the first byte, the internal key, the path.
    pub open spec fn spec_serialize(&self) -> Seq<u8> {
        seq![self.spec_first_byte()] + self.internal_key@ + path_bytes(self.merkle_path@)
    }

    /// The control block's bytes.
    pub fn serialize(&self) -> (out: Vec<u8>)
        ensures
            out@ == self.spec_serialize(),
    {
        let mut out: Vec<u8> = Vec::new();
        if self.output_key_odd && self.leaf_version % 2 == 0 {
            out.push(self.leaf_version + 1);
        } else {
            out.push(self.leaf_version);
        }
        append(&mut out, self.internal_key.as_slice());
        assert(out@ =~= seq![self.spec_first_byte()] + self.internal_key@);
        let ghost head = out@;
        let mut i: usize = 0;
        while i < self.merkle_path.len()
            invariant
                i <= self.merkle_path@.len(),
                out@ == head + path_bytes(self.merkle_path@.subrange(0, i as int)),
            decreases self.merkle_path@.len() - i,
        {
            append(&mut out, self.merkle_path[i].as_slice());
            assert(self.merkle_path@.subrange(0, i + 1).drop_last() =~= self.merkle_path@.subrange(
                0,
                i as int,
            ));
            assert(out@ =~= head + path_bytes(self.merkle_path@.subrange(0, i + 1)));
            i += 1;
        }
        assert(self.merkle_path@.subrange(0, i as int) =~= self.merkle_path@);
        out
    }
}

} // verus!
