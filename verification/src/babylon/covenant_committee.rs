//! The covenant committee: a set of keys in canonical order, and the number
//! of them that must sign.

use vstd::prelude::*;
use crate::error::{SigningError, SigningErrorType, SigningResult};
use crate::hash::bytes_eq;
use crate::schnorr::XOnlyPublicKey;
use crate::signature::BitcoinSchnorrSignature;
use crate::taproot::{
    lemma_lex_asymmetric, lemma_lex_irreflexive, lemma_lex_total, lemma_lex_transitive, lex_less,
    lex_lt,
};

verus! {

/// The signatures of covenant members as they stand in a witness.
pub open spec fn signature_views(signatures: Seq<Option<BitcoinSchnorrSignature>>) -> Seq<
    Option<Seq<u8>>,
> {
    Seq::new(
        signatures.len(),
        |i: int|
            match signatures[i] {
                Some(sig) => Some(sig.spec_serialize()),
                None => None,
            },
    )
}

/// The byte strings of a sequence of keys.
pub open spec fn key_views(keys: Seq<XOnlyPublicKey>) -> Seq<Seq<u8>> {
    Seq::new(keys.len(), |i: int| keys[i]@)
}

/// Whether each key comes before all that follow it, in lexicographic order.
pub open spec fn strictly_sorted(keys: Seq<Seq<u8>>) -> bool {
    forall|i: int, j: int| 0 <= i < j < keys.len() ==> lex_lt(#[trigger] keys[i], #[trigger] keys[j])
}

/// Whether some key occurs twice.
pub open spec fn has_duplicates(keys: Seq<Seq<u8>>) -> bool {
    exists|i: int, j: int| 0 <= i < j < keys.len() && #[trigger] keys[i] == #[trigger] keys[j]
}

/// Whether two sequences hold the same keys, in whatever order.
pub open spec fn same_keys(a: Seq<Seq<u8>>, b: Seq<Seq<u8>>) -> bool {
    &&& forall|i: int| 0 <= i < a.len() ==> b.contains(#[trigger] a[i])
    &&& forall|i: int| 0 <= i < b.len() ==> a.contains(#[trigger] b[i])
}

/// Whether keys and quorum make a committee: at least one key, none twice,
/// and a quorum of at least one and at most the number of keys.
pub open spec fn committee_valid(keys: Seq<Seq<u8>>, quorum: u32) -> bool {
    &&& keys.len() > 0
    &&& 0 < quorum <= keys.len()
    &&& !has_duplicates(keys)
}

/// Whether `ordered` holds the keys of `keys` in canonical order: each once,
/// in ascending lexicographic order.
pub open spec fn is_canonical_order(ordered: Seq<Seq<u8>>, keys: Seq<Seq<u8>>) -> bool {
    &&& strictly_sorted(ordered)
    &&& same_keys(ordered, keys)
    &&& ordered.len() == keys.len()
}

/// The keys of `keys` in canonical order, where there is such an order: that
/// is, where no key occurs twice.
pub open spec fn canonical_order(keys: Seq<Seq<u8>>) -> Seq<Seq<u8>> {
    choose|ordered: Seq<Seq<u8>>| is_canonical_order(ordered, keys)
}

/// Two strictly ascending sequences that hold the same keys are equal.
pub proof fn lemma_canonical_order_unique(x: Seq<Seq<u8>>, y: Seq<Seq<u8>>)
    requires
        strictly_sorted(x),
        strictly_sorted(y),
        same_keys(x, y),
    ensures
        x == y,
    decreases x.len(),
{
    if x.len() == 0 {
        if y.len() > 0 {
            assert(x.contains(y[0]));
        }
        assert(x =~= y);
    } else {
        let xl = x.len() - 1;
        assert(y.contains(x[xl]));
        let yl = y.len() - 1;
        assert(x.contains(y[yl]));
        let j = choose|j: int| 0 <= j < y.len() && y[j] == x[xl];
        let i = choose|i: int| 0 <= i < x.len() && x[i] == y[yl];
        if j < yl && i < xl {
            assert(lex_lt(y[j], y[yl]));
            assert(lex_lt(x[i], x[xl]));
            lemma_lex_asymmetric(x[xl], y[yl]);
        }
        if j < yl && i == xl {
            lemma_lex_irreflexive(x[xl]);
            assert(lex_lt(y[j], y[yl]));
        }
        if j == yl && i < xl {
            lemma_lex_irreflexive(x[xl]);
            assert(lex_lt(x[i], x[xl]));
        }
        assert(x[xl] == y[yl]);
        let xs = x.drop_last();
        let ys = y.drop_last();
        assert forall|p: int| 0 <= p < xs.len() implies ys.contains(#[trigger] xs[p]) by {
            assert(xs[p] == x[p]);
            assert(y.contains(x[p]));
            let q = choose|q: int| 0 <= q < y.len() && y[q] == x[p];
            if q == yl {
                assert(lex_lt(x[p], x[xl]));
                lemma_lex_irreflexive(x[xl]);
            }
            assert(ys[q] == y[q]);
        }
        assert forall|q: int| 0 <= q < ys.len() implies xs.contains(#[trigger] ys[q]) by {
            assert(ys[q] == y[q]);
            assert(x.contains(y[q]));
            let p = choose|p: int| 0 <= p < x.len() && x[p] == y[q];
            if p == xl {
                assert(lex_lt(y[q], y[yl]));
                lemma_lex_irreflexive(y[yl]);
            }
            assert(xs[p] == x[p]);
        }
        assert(strictly_sorted(xs)) by {
            assert forall|a: int, b: int| 0 <= a < b < xs.len() implies lex_lt(
                #[trigger] xs[a],
                #[trigger] xs[b],
            ) by {
                assert(lex_lt(x[a], x[b]));
            }
        }
        assert(strictly_sorted(ys)) by {
            assert forall|a: int, b: int| 0 <= a < b < ys.len() implies lex_lt(
                #[trigger] ys[a],
                #[trigger] ys[b],
            ) by {
                assert(lex_lt(y[a], y[b]));
            }
        }
        lemma_canonical_order_unique(xs, ys);
        assert(x =~= xs.push(x[xl]));
        assert(y =~= ys.push(y[yl]));
    }
}

/// The canonical order of a set of keys does not depend on the order in which
/// the keys were given.
pub proof fn lemma_canonical_order_of_permutation(
    x: Seq<Seq<u8>>,
    a: Seq<Seq<u8>>,
    y: Seq<Seq<u8>>,
    b: Seq<Seq<u8>>,
)
    requires
        is_canonical_order(x, a),
        is_canonical_order(y, b),
        same_keys(a, b),
    ensures
        x == y,
{
    assert forall|i: int| 0 <= i < x.len() implies y.contains(#[trigger] x[i]) by {
        assert(a.contains(x[i]));
        let p = choose|p: int| 0 <= p < a.len() && a[p] == x[i];
        assert(b.contains(a[p]));
        let q = choose|q: int| 0 <= q < b.len() && b[q] == a[p];
        assert(y.contains(b[q]));
    }
    assert forall|i: int| 0 <= i < y.len() implies x.contains(#[trigger] y[i]) by {
        assert(b.contains(y[i]));
        let p = choose|p: int| 0 <= p < b.len() && b[p] == y[i];
        assert(a.contains(b[p]));
        let q = choose|q: int| 0 <= q < a.len() && a[q] == b[p];
        assert(x.contains(a[q]));
    }
    lemma_canonical_order_unique(x, y);
}

/// A canonical order of `keys` is the canonical order of `keys`.
pub proof fn lemma_canonical_order_is_unique(ordered: Seq<Seq<u8>>, keys: Seq<Seq<u8>>)
    requires
        is_canonical_order(ordered, keys),
    ensures
        ordered == canonical_order(keys),
        is_canonical_order(canonical_order(keys), keys),
{
    assert(same_keys(keys, keys)) by {
        assert forall|i: int| 0 <= i < keys.len() implies keys.contains(#[trigger] keys[i]) by {}
    }
    lemma_canonical_order_of_permutation(ordered, keys, canonical_order(keys), keys);
}

/// Keys with the signatures they gave, as plain values: the key's bytes and
/// the signature as it stands in a witness.
pub open spec fn signature_pairs(signatures: Seq<(XOnlyPublicKey, BitcoinSchnorrSignature)>) -> Seq<
    (Seq<u8>, Seq<u8>),
> {
    Seq::new(signatures.len(), |i: int| (signatures[i].0@, signatures[i].1.spec_serialize()))
}

/// The keys of those who signed, in the order given.
pub open spec fn signer_keys(pairs: Seq<(Seq<u8>, Seq<u8>)>) -> Seq<Seq<u8>> {
    Seq::new(pairs.len(), |i: int| pairs[i].0)
}

/// Whether signatures can stand for a committee: the signers come in
/// committee order, each of them a member and none twice, and they are at
/// least as many as the quorum.
pub open spec fn signatures_acceptable(
    committee: Seq<Seq<u8>>,
    quorum: u32,
    signers: Seq<Seq<u8>>,
) -> bool {
    &&& strictly_sorted(signers)
    &&& forall|i: int| 0 <= i < signers.len() ==> committee.contains(#[trigger] signers[i])
    &&& signers.len() >= quorum
}

/// The signature that `key` gave, if it gave one.
pub open spec fn signature_of(key: Seq<u8>, pairs: Seq<(Seq<u8>, Seq<u8>)>) -> Option<Seq<u8>>
    decreases pairs.len(),
{
    if pairs.len() == 0 {
        None
    } else if pairs.last().0 == key {
        Some(pairs.last().1)
    } else {
        signature_of(key, pairs.drop_last())
    }
}

/// For each committee key, in committee order, the signature it gave if any.
pub open spec fn partial_signatures(
    committee: Seq<Seq<u8>>,
    pairs: Seq<(Seq<u8>, Seq<u8>)>,
) -> Seq<Option<Seq<u8>>> {
    Seq::new(committee.len(), |i: int| signature_of(committee[i], pairs))
}

/// A covenant committee: its keys in canonical order, and its quorum.
#[derive(Debug)]
pub struct CovenantCommittee {
    pks: Vec<XOnlyPublicKey>,
    quorum: u32,
}

impl CovenantCommittee {
    /// The committee's keys, in canonical order.
    pub closed spec fn spec_keys(&self) -> Seq<Seq<u8>> {
        key_views(self.pks@)
    }

    /// The number of members that must sign.
    pub closed spec fn spec_quorum(&self) -> u32 {
        self.quorum
    }

    /// The keys are in canonical order, and the quorum is at least one and at
    /// most their number.
    pub open spec fn wf(&self) -> bool {
        &&& strictly_sorted(self.spec_keys())
        &&& 0 < self.spec_quorum() <= self.spec_keys().len()
    }

    /// The committee of the given keys and quorum, the keys brought into
    /// canonical order. Fails with `InvalidParams` where there is no key, a key
    /// occurs twice, or the quorum is zero or above the number of keys.
    pub fn new(pks: Vec<XOnlyPublicKey>, quorum: u32) -> (r: SigningResult<CovenantCommittee>)
        ensures
            r is Ok <==> committee_valid(key_views(pks@), quorum),
            quorum == 0 || quorum > pks@.len() ==> r is Err,
            r matches Ok(c) ==> {
                &&& c.wf()
                &&& c.spec_quorum() == quorum
                &&& is_canonical_order(c.spec_keys(), key_views(pks@))
                &&& c.spec_keys() == canonical_order(key_views(pks@))
            },
            r matches Err(e) ==> e.kind() == SigningErrorType::InvalidParams,
    {
        if pks.len() == 0 {
            return Err(SigningError::new(SigningErrorType::InvalidParams, "No public keys provided"));
        }
        if quorum == 0 {
            return Err(
                SigningError::new(SigningErrorType::InvalidParams, "Quorum must be at least one"),
            );
        }
        if quorum as usize > pks.len() {
            return Err(
                SigningError::new(
                    SigningErrorType::InvalidParams,
                    "Required number of valid signers is greater than number of provided keys",
                ),
            );
        }
        let ghost given = key_views(pks@);
        let mut sorted: Vec<XOnlyPublicKey> = Vec::new();
        let mut i: usize = 0;
        while i < pks.len()
            invariant
                i <= pks@.len(),
                sorted@.len() == i,
                given == key_views(pks@),
                strictly_sorted(key_views(sorted@)),
                forall|j: int| 0 <= j < i ==> key_views(sorted@).contains(#[trigger] given[j]),
                forall|p: int|
                    0 <= p < i ==> given.subrange(0, i as int).contains(
                        #[trigger] key_views(sorted@)[p],
                    ),
                !has_duplicates(given.subrange(0, i as int)),
            decreases pks@.len() - i,
        {
            let key: XOnlyPublicKey = pks[i];
            let ghost before = key_views(sorted@);
            let ghost seen = given.subrange(0, i as int);
            assert(given[i as int] == key@);
            let mut p: usize = 0;
            while p < sorted.len() && lex_less(sorted[p].as_slice(), key.as_slice())
                invariant
                    p <= sorted@.len(),
                    before == key_views(sorted@),
                    forall|q: int| 0 <= q < p ==> lex_lt(#[trigger] before[q], key@),
                decreases sorted@.len() - p,
            {
                assert(before[p as int] == sorted@[p as int]@);
                p += 1;
            }
            if p < sorted.len() {
                assert(before[p as int] == sorted@[p as int]@);
                if !lex_less(key.as_slice(), sorted[p].as_slice()) {
                    proof {
                        lemma_lex_total(key@, before[p as int]);
                        assert(seen.contains(before[p as int]));
                        let j = choose|j: int| 0 <= j < seen.len() && seen[j] == before[p as int];
                        assert(given[j] == given[i as int]);
                    }
                    return Err(
                        SigningError::new(
                            SigningErrorType::InvalidParams,
                            "Public keys must be unique",
                        ),
                    );
                }
            }
            sorted.insert(p, key);
            let ghost after = key_views(sorted@);
            proof {
                assert(after =~= before.insert(p as int, key@));
                assert forall|q: int| p <= q < before.len() implies lex_lt(
                    key@,
                    #[trigger] before[q],
                ) by {
                    if q > p {
                        assert(lex_lt(before[p as int], before[q]));
                        lemma_lex_transitive(key@, before[p as int], before[q]);
                    }
                }
                assert forall|a: int, b: int| 0 <= a < b < after.len() implies lex_lt(
                    #[trigger] after[a],
                    #[trigger] after[b],
                ) by {
                    if a < p && b < p {
                        assert(lex_lt(before[a], before[b]));
                    } else if a < p && b == p {
                        assert(lex_lt(before[a], key@));
                    } else if a < p && b > p {
                        assert(lex_lt(before[a], before[b - 1]));
                    } else if a == p {
                        assert(lex_lt(key@, before[b - 1]));
                    } else {
                        assert(lex_lt(before[a - 1], before[b - 1]));
                    }
                }
                let next = given.subrange(0, i + 1);
                assert forall|j: int| 0 <= j < i + 1 implies after.contains(
                    #[trigger] given[j],
                ) by {
                    if j < i {
                        assert(before.contains(given[j]));
                        let q = choose|q: int| 0 <= q < before.len() && before[q] == given[j];
                        if q < p {
                            assert(after[q] == before[q]);
                        } else {
                            assert(after[q + 1] == before[q]);
                        }
                    } else {
                        assert(after[p as int] == key@);
                    }
                }
                assert forall|q: int| 0 <= q < i + 1 implies next.contains(
                    #[trigger] after[q],
                ) by {
                    if q == p {
                        assert(next[i as int] == key@);
                    } else {
                        let old_q = if q < p {
                            q
                        } else {
                            q - 1
                        };
                        assert(after[q] == before[old_q]);
                        assert(seen.contains(before[old_q]));
                        let j = choose|j: int| 0 <= j < seen.len() && seen[j] == before[old_q];
                        assert(next[j] == seen[j]);
                    }
                }
                if has_duplicates(next) {
                    let (a, b) = choose|a: int, b: int|
                        0 <= a < b < next.len() && #[trigger] next[a] == #[trigger] next[b];
                    if b < i {
                        assert(seen[a] == seen[b]);
                    } else {
                        assert(next[a] == key@);
                        assert(before.contains(given[a]));
                        let q = choose|q: int| 0 <= q < before.len() && before[q] == given[a];
                        lemma_lex_irreflexive(key@);
                    }
                }
            }
            i += 1;
        }
        proof {
            assert(given.subrange(0, i as int) =~= given);
            let ordered = key_views(sorted@);
            assert forall|q: int| 0 <= q < given.len() implies ordered.contains(
                #[trigger] given[q],
            ) by {}
            assert forall|q: int| 0 <= q < ordered.len() implies given.contains(
                #[trigger] ordered[q],
            ) by {}
            lemma_canonical_order_is_unique(ordered, given);
        }
        Ok(CovenantCommittee { pks: sorted, quorum })
    }

    /// For each member, in committee order, the signature it gave if any.
    /// Fails with `InvalidParams` unless the signers come in committee order,
    /// each a member and none twice, and are at least as many as the quorum.
    pub fn with_partial_signatures(
        &self,
        signatures: &Vec<(XOnlyPublicKey, BitcoinSchnorrSignature)>,
    ) -> (r: SigningResult<Vec<Option<BitcoinSchnorrSignature>>>)
        ensures
            r is Ok <==> signatures_acceptable(
                self.spec_keys(),
                self.spec_quorum(),
                signer_keys(signature_pairs(signatures@)),
            ),
            r matches Ok(slots) ==> signature_views(slots@) == partial_signatures(
                self.spec_keys(),
                signature_pairs(signatures@),
            ),
            r matches Err(e) ==> e.kind() == SigningErrorType::InvalidParams,
    {
        let ghost pairs = signature_pairs(signatures@);
        let ghost signers = signer_keys(pairs);
        let ghost committee = self.spec_keys();
        let mut i: usize = 1;
        while i < signatures.len()
            invariant
                1 <= i,
                pairs == signature_pairs(signatures@),
                signers == signer_keys(pairs),
                signatures@.len() >= 1 ==> i <= signatures@.len() && strictly_sorted(
                    signers.subrange(0, i as int),
                ),
            decreases signatures@.len() - i,
        {
            assert(signers[i as int] == signatures@[i as int].0@);
            assert(signers[i - 1] == signatures@[i - 1].0@);
            if !lex_less(signatures[i - 1].0.as_slice(), signatures[i].0.as_slice()) {
                return Err(
                    SigningError::new(
                        SigningErrorType::InvalidParams,
                        "Signatures must come in the order of the committee",
                    ),
                );
            }
            proof {
                let before = signers.subrange(0, i as int);
                let next = signers.subrange(0, i + 1);
                assert forall|a: int, b: int| 0 <= a < b < next.len() implies lex_lt(
                    #[trigger] next[a],
                    #[trigger] next[b],
                ) by {
                    if b < i {
                        assert(lex_lt(before[a], before[b]));
                    } else if a < i - 1 {
                        assert(lex_lt(before[a], before[i - 1]));
                        lemma_lex_transitive(signers[a], signers[i - 1], signers[i as int]);
                    }
                }
            }
            i += 1;
        }
        proof {
            if signatures@.len() == 0 {
                assert(strictly_sorted(signers));
            } else {
                assert(signers.subrange(0, signers.len() as int) =~= signers);
            }
        }
        let mut j: usize = 0;
        while j < signatures.len()
            invariant
                j <= signatures@.len(),
                pairs == signature_pairs(signatures@),
                signers == signer_keys(pairs),
                committee == self.spec_keys(),
                forall|a: int| 0 <= a < j ==> committee.contains(#[trigger] signers[a]),
            decreases signatures@.len() - j,
        {
            assert(signers[j as int] == signatures@[j as int].0@);
            let mut found: bool = false;
            let mut m: usize = 0;
            while m < self.pks.len() && !found
                invariant
                    m <= self.pks@.len(),
                    j < signatures@.len(),
                    pairs == signature_pairs(signatures@),
                signers == signer_keys(pairs),
                    committee == key_views(self.pks@),
                    found ==> committee.contains(signers[j as int]),
                    !found ==> forall|q: int| 0 <= q < m ==> #[trigger] committee[q] != signers[j as int],
                decreases self.pks@.len() - m + (if found { 0int } else { 1int }),
            {
                assert(committee[m as int] == self.pks@[m as int]@);
                if bytes_eq(self.pks[m].as_slice(), signatures[j].0.as_slice()) {
                    found = true;
                    assert(committee[m as int] == signers[j as int]);
                } else {
                    m += 1;
                }
            }
            if !found {
                return Err(
                    SigningError::new(
                        SigningErrorType::InvalidParams,
                        "Signature provided for an unknown public key",
                    ),
                );
            }
            j += 1;
        }
        if signatures.len() < self.quorum as usize {
            return Err(
                SigningError::new(
                    SigningErrorType::InvalidParams,
                    "Number of signatures is less than quorum",
                ),
            );
        }
        let mut slots: Vec<Option<BitcoinSchnorrSignature>> = Vec::new();
        let mut k: usize = 0;
        while k < self.pks.len()
            invariant
                k <= self.pks@.len(),
                committee == key_views(self.pks@),
                slots@.len() == k,
                pairs == signature_pairs(signatures@),
                forall|q: int|
                    0 <= q < k ==> #[trigger] signature_views(slots@)[q] == signature_of(
                        committee[q],
                        pairs,
                    ),
            decreases self.pks@.len() - k,
        {
            assert(committee[k as int] == self.pks@[k as int]@);
            let mut slot: Option<BitcoinSchnorrSignature> = None;
            let mut n: usize = signatures.len();
            assert(pairs.subrange(0, n as int) =~= pairs);
            while n > 0 && slot.is_none()
                invariant
                    n <= signatures@.len(),
                    k < self.pks@.len(),
                    committee == key_views(self.pks@),
                    pairs == signature_pairs(signatures@),
                    slot is None ==> signature_of(committee[k as int], pairs) == signature_of(
                        committee[k as int],
                        pairs.subrange(0, n as int),
                    ),
                    slot matches Some(sig) ==> signature_of(committee[k as int], pairs) == Some(
                        sig.spec_serialize(),
                    ),
                    committee[k as int] == self.pks@[k as int]@,
                decreases n + (if slot is None { 1int } else { 0int }),
            {
                let ghost prefix = pairs.subrange(0, n as int);
                assert(prefix.last() == pairs[n - 1]);
                assert(pairs[n - 1].0 == signatures@[n - 1].0@);
                assert(prefix.drop_last() =~= pairs.subrange(0, n - 1));
                if bytes_eq(signatures[n - 1].0.as_slice(), self.pks[k].as_slice()) {
                    slot = Some(signatures[n - 1].1);
                } else {
                    n -= 1;
                }
            }
            proof {
                if slot is None {
                    assert(pairs.subrange(0, 0) =~= Seq::empty());
                }
            }
            let ghost before = signature_views(slots@);
            slots.push(slot);
            proof {
                let after = signature_views(slots@);
                assert forall|q: int| 0 <= q < k + 1 implies #[trigger] after[q] == signature_of(
                    committee[q],
                    pairs,
                ) by {
                    if q < k {
                        assert(after[q] == before[q]);
                    }
                }
            }
            k += 1;
        }
        assert(signature_views(slots@) =~= partial_signatures(self.spec_keys(), pairs));
        Ok(slots)
    }

    /// The keys, in canonical order.
    pub fn public_keys_ordered(&self) -> (keys: &Vec<XOnlyPublicKey>)
        ensures
            key_views(keys@) == self.spec_keys(),
    {
        &self.pks
    }

    /// The number of members that must sign.
    pub fn quorum(&self) -> (quorum: u32)
        ensures
            quorum == self.spec_quorum(),
    {
        self.quorum
    }
}

} // verus!
