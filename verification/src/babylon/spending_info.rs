//! The script tree of a staking output: its three leaves, its root, and what
//! a spend of each leaf has to reveal.

use vstd::prelude::*;
use crate::babylon::conditions::{
    new_slashing_script, new_timelock_script, new_unbonding_script, slashing_script,
    timelock_script, unbonding_script,
};
use crate::babylon::covenant_committee::{
    canonical_order, committee_valid, is_canonical_order, key_views,
    lemma_canonical_order_of_permutation, same_keys, CovenantCommittee,
};
use crate::error::{SigningError, SigningErrorType, SigningResult};
use crate::hash::{H256, H264};
use crate::schnorr::{tap_tweaked_key, PublicKey, XOnlyPublicKey};
use crate::script::Script;
use crate::taproot::{
    branch_hash, leaf_hash, lemma_branch_commutes, path_bytes, root_from_path, tap_branch_hash,
    tap_leaf_hash, ControlBlock, LEAF_VERSION_TAPSCRIPT,
};

verus! {

/// A point with no known discrete logarithm, in compressed form. As the
/// internal key of a taproot output it leaves only the script paths to spend.
pub const UNSPENDABLE_KEY_PATH_BYTES: [u8; 33] = [
    0x02, 0x50, 0x92, 0x9b, 0x74, 0xc1, 0xa0, 0x49, 0x54, 0xb7, 0x8b, 0x4b, 0x60, 0x35, 0xe9, 0x7a,
    0x5e, 0x07, 0x8a, 0x5a, 0x0f, 0x28, 0xec, 0x96, 0xd5, 0x47, 0xbf, 0xee, 0x9a, 0xce, 0x80, 0x3a,
    0xc0,
];

/// The unspendable internal key.
pub fn unspendable_key_path() -> (key: PublicKey)
    ensures
        key.spec_bytes() == UNSPENDABLE_KEY_PATH_BYTES,
{
    PublicKey::from_compressed(UNSPENDABLE_KEY_PATH_BYTES)
}

/// The root of the tree over three leaf hashes: timelock and unbonding share
/// a branch, which is the sibling of slashing.
pub open spec fn tree_root(timelock: Seq<u8>, unbonding: Seq<u8>, slashing: Seq<u8>) -> Seq<u8> {
    tap_branch_hash(tap_branch_hash(timelock, unbonding), slashing)
}

/// The root of the staking script tree for a staker, a lock time, a finality
/// provider and a committee in canonical order with its quorum.
pub open spec fn staking_merkle_root(
    staker: Seq<u8>,
    locktime: u16,
    finality_provider: Seq<u8>,
    covenants: Seq<Seq<u8>>,
    quorum: u32,
) -> Seq<u8> {
    tree_root(
        tap_leaf_hash(timelock_script(staker, locktime)),
        tap_leaf_hash(unbonding_script(staker, covenants, quorum)),
        tap_leaf_hash(slashing_script(staker, finality_provider, covenants, quorum)),
    )
}

/// The control block of a leaf of a staking tree, where the unspendable key
/// can be tweaked with the root: the leaf version of tapscript with the
/// parity of the output key, the unspendable key's x coordinate, and the
/// hashes of the leaf's Merkle path, the leaf's own sibling first.
pub open spec fn staking_control_block(merkle_root: Seq<u8>, path: Seq<u8>) -> Option<Seq<u8>> {
    match tap_tweaked_key(UNSPENDABLE_KEY_PATH_BYTES@, Some(merkle_root)) {
        Some(output_key) => Some(
            seq![
                if output_key[0] == 3 {
                    0xc1u8
                } else {
                    0xc0u8
                },
            ] + UNSPENDABLE_KEY_PATH_BYTES@.subrange(1, 33) + path,
        ),
        None => None,
    }
}

/// The script tree of a staking output.
#[derive(Debug)]
pub struct StakingSpendInfo {
    committee: CovenantCommittee,
    timelock_script: Script,
    unbonding_script: Script,
    slashing_script: Script,
    timelock_hash: H256,
    unbonding_hash: H256,
    slashing_hash: H256,
    inner_hash: H256,
    merkle_root: H256,
}

impl StakingSpendInfo {
    /// The script of the timelock path.
    pub closed spec fn spec_timelock_script(&self) -> Seq<u8> {
        self.timelock_script@
    }

    /// The script of the unbonding path.
    pub closed spec fn spec_unbonding_script(&self) -> Seq<u8> {
        self.unbonding_script@
    }

    /// The script of the slashing path.
    pub closed spec fn spec_slashing_script(&self) -> Seq<u8> {
        self.slashing_script@
    }

    /// The root of the tree.
    pub closed spec fn spec_merkle_root(&self) -> H256 {
        self.merkle_root
    }

    /// The covenant committee's keys, in canonical order.
    pub closed spec fn spec_covenants(&self) -> Seq<Seq<u8>> {
        self.committee.spec_keys()
    }

    /// The covenant committee's quorum.
    pub closed spec fn spec_quorum(&self) -> u32 {
        self.committee.spec_quorum()
    }

    /// The stored hashes are those of the stored scripts, and the root is the
    /// root over them.
    #[verifier::type_invariant]
    pub closed spec fn wf(&self) -> bool {
        &&& self.timelock_hash@ == tap_leaf_hash(self.timelock_script@)
        &&& self.unbonding_hash@ == tap_leaf_hash(self.unbonding_script@)
        &&& self.slashing_hash@ == tap_leaf_hash(self.slashing_script@)
        &&& self.inner_hash@ == tap_branch_hash(self.timelock_hash@, self.unbonding_hash@)
        &&& self.merkle_root@ == tree_root(
            self.timelock_hash@,
            self.unbonding_hash@,
            self.slashing_hash@,
        )
    }

    /// Whether this is the tree for the given staker, lock time, finality
    /// provider, committee keys in any order, and quorum: the committee is
    /// taken in canonical order, the three scripts are those of the three
    /// paths, and the root is the root over their leaf hashes.
    pub open spec fn built_from(
        &self,
        staker: Seq<u8>,
        locktime: u16,
        finality_provider: Seq<u8>,
        covenants: Seq<Seq<u8>>,
        quorum: u32,
    ) -> bool {
        let ordered = canonical_order(covenants);
        &&& is_canonical_order(ordered, covenants)
        &&& self.spec_covenants() == ordered
        &&& self.spec_quorum() == quorum
        &&& self.spec_timelock_script() == timelock_script(staker, locktime)
        &&& self.spec_unbonding_script() == unbonding_script(staker, ordered, quorum)
        &&& self.spec_slashing_script() == slashing_script(
            staker,
            finality_provider,
            ordered,
            quorum,
        )
        &&& self.spec_merkle_root()@ == staking_merkle_root(
            staker,
            locktime,
            finality_provider,
            ordered,
            quorum,
        )
    }

    /// The Merkle path of the timelock leaf: the unbonding leaf, then the
    /// slashing leaf.
    pub closed spec fn spec_timelock_path(&self) -> Seq<H256> {
        seq![self.unbonding_hash, self.slashing_hash]
    }

    /// The Merkle path of the unbonding leaf: the timelock leaf, then the
    /// slashing leaf.
    pub closed spec fn spec_unbonding_path(&self) -> Seq<H256> {
        seq![self.timelock_hash, self.slashing_hash]
    }

    /// The Merkle path of the slashing leaf: the branch over the timelock and
    /// the unbonding leaf.
    pub closed spec fn spec_slashing_path(&self) -> Seq<H256> {
        seq![self.inner_hash]
    }

    /// The script tree for the given parameters. Fails with `InvalidParams`
    /// where the covenant keys and the quorum make no committee.
    pub fn new(
        staker: &XOnlyPublicKey,
        staking_locktime: u16,
        finality_provider: XOnlyPublicKey,
        covenants: Vec<XOnlyPublicKey>,
        covenant_quorum: u32,
    ) -> (r: SigningResult<StakingSpendInfo>)
        ensures
            r is Ok <==> committee_valid(key_views(covenants@), covenant_quorum),
            covenant_quorum == 0 || covenant_quorum > covenants@.len() ==> r is Err,
            r matches Ok(info) ==> info.wf() && info.built_from(
                staker@,
                staking_locktime,
                finality_provider@,
                key_views(covenants@),
                covenant_quorum,
            ),
            r matches Err(e) ==> e.kind() == SigningErrorType::InvalidParams,
    {
        let ghost given = key_views(covenants@);
        let committee = match CovenantCommittee::new(covenants, covenant_quorum) {
            Ok(c) => c,
            Err(e) => {
                return Err(e);
            },
        };
        let timelock_script = new_timelock_script(staker, staking_locktime);
        let unbonding_script = new_unbonding_script(staker, &committee);
        let slashing_script = new_slashing_script(staker, &finality_provider, &committee);
        let timelock_hash: H256 = leaf_hash(timelock_script.as_slice());
        let unbonding_hash: H256 = leaf_hash(unbonding_script.as_slice());
        let slashing_hash: H256 = leaf_hash(slashing_script.as_slice());
        let inner_hash: H256 = branch_hash(&timelock_hash, &unbonding_hash);
        let merkle_root: H256 = branch_hash(&inner_hash, &slashing_hash);
        let info = StakingSpendInfo {
            committee,
            timelock_script,
            unbonding_script,
            slashing_script,
            timelock_hash,
            unbonding_hash,
            slashing_hash,
            inner_hash,
            merkle_root,
        };
        assert(info.committee.spec_keys() == canonical_order(given));
        Ok(info)
    }

    /// The covenant committee.
    pub fn covenant_committee(&self) -> (committee: &CovenantCommittee)
        ensures
            committee.spec_keys() == self.spec_covenants(),
            committee.spec_quorum() == self.spec_quorum(),
    {
        &self.committee
    }

    /// The root of the tree.
    pub fn merkle_root(&self) -> (root: H256)
        ensures
            root == self.spec_merkle_root(),
    {
        self.merkle_root
    }

    /// The script of the timelock path.
    pub fn timelock_script(&self) -> (s: &Script)
        ensures
            s@ == self.spec_timelock_script(),
    {
        &self.timelock_script
    }

    /// The script of the unbonding path.
    pub fn unbonding_script(&self) -> (s: &Script)
        ensures
            s@ == self.spec_unbonding_script(),
    {
        &self.unbonding_script
    }

    /// The script of the slashing path.
    pub fn slashing_script(&self) -> (s: &Script)
        ensures
            s@ == self.spec_slashing_script(),
    {
        &self.slashing_script
    }

    /// The control block of a leaf with the given Merkle path: tapscript's
    /// leaf version, the unspendable internal key, and the parity of the
    /// output key. Fails with `Internal` where the internal key cannot be
    /// tweaked with the root.
    fn control_block(&self, merkle_path: Vec<H256>) -> (r: SigningResult<ControlBlock>)
        ensures
            r is Ok <==> tap_tweaked_key(UNSPENDABLE_KEY_PATH_BYTES@, Some(self.spec_merkle_root()@))
                is Some,
            r matches Ok(block) ==> {
                &&& block.leaf_version == 0xc0
                &&& block.internal_key@ == UNSPENDABLE_KEY_PATH_BYTES@.subrange(1, 33)
                &&& block.merkle_path@ == merkle_path@
                &&& block.output_key_odd == (tap_tweaked_key(
                    UNSPENDABLE_KEY_PATH_BYTES@,
                    Some(self.spec_merkle_root()@),
                )->0[0] == 3)
            },
            r matches Err(e) ==> e.kind() == SigningErrorType::Internal,
    {
        let internal_key = unspendable_key_path();
        match internal_key.tweak(Some(self.merkle_root)) {
            Some(output_key) => {
                let compressed: H264 = output_key.compressed();
                Ok(
                    ControlBlock {
                        leaf_version: LEAF_VERSION_TAPSCRIPT,
                        output_key_odd: compressed[0] == 3,
                        internal_key: internal_key.x_only().bytes(),
                        merkle_path,
                    },
                )
            },
            None => Err(
                SigningError::new(
                    SigningErrorType::Internal,
                    "The unspendable key cannot be tweaked with the tree root",
                ),
            ),
        }
    }

    /// What a spend by the timelock path reveals. Its Merkle path leads from
    /// the timelock leaf to the root.
    pub fn timelock_control_block(&self) -> (r: SigningResult<ControlBlock>)
        ensures
            r is Ok <==> tap_tweaked_key(UNSPENDABLE_KEY_PATH_BYTES@, Some(self.spec_merkle_root()@))
                is Some,
            r matches Ok(block) ==> {
                &&& block.leaf_version == 0xc0
                &&& block.internal_key@ == UNSPENDABLE_KEY_PATH_BYTES@.subrange(1, 33)
                &&& block.merkle_path@ == self.spec_timelock_path()
                &&& block.output_key_odd == (tap_tweaked_key(
                    UNSPENDABLE_KEY_PATH_BYTES@,
                    Some(self.spec_merkle_root()@),
                )->0[0] == 3)
                &&& root_from_path(tap_leaf_hash(self.spec_timelock_script()), block.merkle_path@)
                    == self.spec_merkle_root()@
                &&& Some(block.spec_serialize()) == staking_control_block(
                    self.spec_merkle_root()@,
                    tap_leaf_hash(self.spec_unbonding_script()) + tap_leaf_hash(
                        self.spec_slashing_script(),
                    ),
                )
            },
            r matches Err(e) ==> e.kind() == SigningErrorType::Internal,
    {
        let mut path: Vec<H256> = Vec::new();
        path.push(self.unbonding_hash);
        path.push(self.slashing_hash);
        assert(path@ =~= self.spec_timelock_path());
        proof {
            use_type_invariant(self);
            self.lemma_timelock_path_leads_to_root();
            lemma_path_of_two(self.unbonding_hash, self.slashing_hash);
        }
        let r = self.control_block(path);
        proof {
            if r is Ok {
                assert(r->Ok_0.spec_serialize() =~= staking_control_block(
                    self.spec_merkle_root()@,
                    tap_leaf_hash(self.spec_unbonding_script()) + tap_leaf_hash(
                        self.spec_slashing_script(),
                    ),
                )->0);
            }
        }
        r
    }

    /// What a spend by the unbonding path reveals. Its Merkle path leads from
    /// the unbonding leaf to the root.
    pub fn unbonding_control_block(&self) -> (r: SigningResult<ControlBlock>)
        ensures
            r is Ok <==> tap_tweaked_key(UNSPENDABLE_KEY_PATH_BYTES@, Some(self.spec_merkle_root()@))
                is Some,
            r matches Ok(block) ==> {
                &&& block.leaf_version == 0xc0
                &&& block.internal_key@ == UNSPENDABLE_KEY_PATH_BYTES@.subrange(1, 33)
                &&& block.merkle_path@ == self.spec_unbonding_path()
                &&& block.output_key_odd == (tap_tweaked_key(
                    UNSPENDABLE_KEY_PATH_BYTES@,
                    Some(self.spec_merkle_root()@),
                )->0[0] == 3)
                &&& root_from_path(tap_leaf_hash(self.spec_unbonding_script()), block.merkle_path@)
                    == self.spec_merkle_root()@
                &&& Some(block.spec_serialize()) == staking_control_block(
                    self.spec_merkle_root()@,
                    tap_leaf_hash(self.spec_timelock_script()) + tap_leaf_hash(
                        self.spec_slashing_script(),
                    ),
                )
            },
            r matches Err(e) ==> e.kind() == SigningErrorType::Internal,
    {
        let mut path: Vec<H256> = Vec::new();
        path.push(self.timelock_hash);
        path.push(self.slashing_hash);
        assert(path@ =~= self.spec_unbonding_path());
        proof {
            use_type_invariant(self);
            self.lemma_unbonding_path_leads_to_root();
            lemma_path_of_two(self.timelock_hash, self.slashing_hash);
        }
        let r = self.control_block(path);
        proof {
            if r is Ok {
                assert(r->Ok_0.spec_serialize() =~= staking_control_block(
                    self.spec_merkle_root()@,
                    tap_leaf_hash(self.spec_timelock_script()) + tap_leaf_hash(
                        self.spec_slashing_script(),
                    ),
                )->0);
            }
        }
        r
    }

    /// What a spend by the slashing path reveals. Its Merkle path leads from
    /// the slashing leaf to the root.
    pub fn slashing_control_block(&self) -> (r: SigningResult<ControlBlock>)
        ensures
            r is Ok <==> tap_tweaked_key(UNSPENDABLE_KEY_PATH_BYTES@, Some(self.spec_merkle_root()@))
                is Some,
            r matches Ok(block) ==> {
                &&& block.leaf_version == 0xc0
                &&& block.internal_key@ == UNSPENDABLE_KEY_PATH_BYTES@.subrange(1, 33)
                &&& block.merkle_path@ == self.spec_slashing_path()
                &&& block.output_key_odd == (tap_tweaked_key(
                    UNSPENDABLE_KEY_PATH_BYTES@,
                    Some(self.spec_merkle_root()@),
                )->0[0] == 3)
                &&& root_from_path(tap_leaf_hash(self.spec_slashing_script()), block.merkle_path@)
                    == self.spec_merkle_root()@
                &&& Some(block.spec_serialize()) == staking_control_block(
                    self.spec_merkle_root()@,
                    tap_branch_hash(
                        tap_leaf_hash(self.spec_timelock_script()),
                        tap_leaf_hash(self.spec_unbonding_script()),
                    ),
                )
            },
            r matches Err(e) ==> e.kind() == SigningErrorType::Internal,
    {
        let mut path: Vec<H256> = Vec::new();
        path.push(self.inner_hash);
        assert(path@ =~= self.spec_slashing_path());
        proof {
            use_type_invariant(self);
            self.lemma_slashing_path_leads_to_root();
            assert(path@.drop_last() =~= Seq::<H256>::empty());
            assert(path_bytes(Seq::<H256>::empty()) =~= Seq::<u8>::empty());
            assert(path@.last() == self.inner_hash);
            assert(path_bytes(path@) =~= self.inner_hash@);
        }
        let r = self.control_block(path);
        proof {
            if r is Ok {
                assert(r->Ok_0.spec_serialize() =~= staking_control_block(
                    self.spec_merkle_root()@,
                    tap_branch_hash(
                        tap_leaf_hash(self.spec_timelock_script()),
                        tap_leaf_hash(self.spec_unbonding_script()),
                    ),
                )->0);
            }
        }
        r
    }

    /// From the hash of the slashing script, the slashing leaf's Merkle path
    /// leads to the root of the tree.
    pub proof fn lemma_slashing_path_leads_to_root(&self)
        requires
            self.wf(),
        ensures
            root_from_path(tap_leaf_hash(self.spec_slashing_script()), self.spec_slashing_path())
                == self.spec_merkle_root()@,
    {
        let path = self.spec_slashing_path();
        let leaf = tap_leaf_hash(self.spec_slashing_script());
        assert(path.drop_first() =~= Seq::<H256>::empty());
        let top = tap_branch_hash(leaf, path[0]@);
        lemma_branch_commutes(leaf, path[0]@);
        assert(root_from_path(leaf, path) == root_from_path(top, path.drop_first()));
    }

    /// From the hash of the timelock script, the timelock leaf's Merkle path
    /// leads to the root of the tree.
    pub proof fn lemma_timelock_path_leads_to_root(&self)
        requires
            self.wf(),
        ensures
            root_from_path(tap_leaf_hash(self.spec_timelock_script()), self.spec_timelock_path())
                == self.spec_merkle_root()@,
    {
        let path = self.spec_timelock_path();
        let leaf = tap_leaf_hash(self.spec_timelock_script());
        let rest = path.drop_first();
        assert(rest =~= seq![self.slashing_hash]);
        assert(rest.drop_first() =~= Seq::<H256>::empty());
        let inner = tap_branch_hash(leaf, path[0]@);
        assert(root_from_path(leaf, path) == root_from_path(inner, rest));
        let top = tap_branch_hash(inner, rest[0]@);
        assert(root_from_path(inner, rest) == root_from_path(top, rest.drop_first()));
    }

    /// From the hash of the unbonding script, the unbonding leaf's Merkle path
    /// leads to the root of the tree.
    pub proof fn lemma_unbonding_path_leads_to_root(&self)
        requires
            self.wf(),
        ensures
            root_from_path(tap_leaf_hash(self.spec_unbonding_script()), self.spec_unbonding_path())
                == self.spec_merkle_root()@,
    {
        let path = self.spec_unbonding_path();
        let leaf = tap_leaf_hash(self.spec_unbonding_script());
        let rest = path.drop_first();
        assert(rest =~= seq![self.slashing_hash]);
        assert(rest.drop_first() =~= Seq::<H256>::empty());
        let inner = tap_branch_hash(leaf, path[0]@);
        lemma_branch_commutes(leaf, path[0]@);
        assert(root_from_path(leaf, path) == root_from_path(inner, rest));
        let top = tap_branch_hash(inner, rest[0]@);
        assert(root_from_path(inner, rest) == root_from_path(top, rest.drop_first()));
    }
}

/// The bytes of a path of two hashes are the two hashes.
proof fn lemma_path_of_two(a: H256, b: H256)
    ensures
        path_bytes(seq![a, b]) == a@ + b@,
{
    let path = seq![a, b];
    assert(path.drop_last() =~= seq![a]);
    assert(seq![a].drop_last() =~= Seq::<H256>::empty());
    assert(path_bytes(Seq::<H256>::empty()) =~= Seq::<u8>::empty());
    assert(seq![a].last() == a);
    assert(path_bytes(seq![a]) =~= a@);
    assert(path.last() == b);
    assert(path_bytes(path) =~= a@ + b@);
}

/// Two trees built for the same staker, lock time, finality provider and
/// quorum, from committees that hold the same keys in whatever order, have
/// the same scripts and the same root.
pub proof fn lemma_root_independent_of_committee_order(
    a: &StakingSpendInfo,
    b: &StakingSpendInfo,
    staker: Seq<u8>,
    locktime: u16,
    finality_provider: Seq<u8>,
    covenants_a: Seq<Seq<u8>>,
    covenants_b: Seq<Seq<u8>>,
    quorum: u32,
)
    requires
        a.built_from(staker, locktime, finality_provider, covenants_a, quorum),
        b.built_from(staker, locktime, finality_provider, covenants_b, quorum),
        same_keys(covenants_a, covenants_b),
    ensures
        a.spec_merkle_root()@ == b.spec_merkle_root()@,
        a.spec_timelock_script() == b.spec_timelock_script(),
        a.spec_unbonding_script() == b.spec_unbonding_script(),
        a.spec_slashing_script() == b.spec_slashing_script(),
{
    let x = canonical_order(covenants_a);
    let y = canonical_order(covenants_b);
    lemma_canonical_order_of_permutation(x, covenants_a, y, covenants_b);
}

} // verus!
