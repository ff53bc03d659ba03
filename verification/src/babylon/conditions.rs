//! The scripts of Babylon staking: one for each way to spend a staking
//! output, and the one that announces a stake.

use vstd::prelude::*;
use crate::babylon::covenant_committee::{key_views, CovenantCommittee};
use crate::encode::{append, be_bytes_u16, push_u16_be};
use crate::hash::H32;
use crate::schnorr::XOnlyPublicKey;
use crate::script::{
    push_data, push_number, Script, OP_CHECKSEQUENCEVERIFY, OP_CHECKSIG, OP_CHECKSIGADD,
    OP_CHECKSIGVERIFY, OP_NUMEQUAL, OP_NUMEQUALVERIFY, OP_RETURN,
};

verus! {

/// A push of a key and a signature check, which either fails the script on a
/// bad signature (`verify`) or leaves its outcome on the stack.
pub open spec fn single_sig(key: Seq<u8>, verify: bool) -> Seq<u8> {
    push_data(key) + seq![
        if verify {
            0xadu8
        } else {
            0xacu8
        },
    ]
}

/// For each key a push and a signature check that counts: `OP_CHECKSIG` for
/// the first key, `OP_CHECKSIGADD` for the others.
pub open spec fn multi_sig_checks(keys: Seq<Seq<u8>>) -> Seq<u8>
    decreases keys.len(),
{
    if keys.len() == 0 {
        Seq::empty()
    } else {
        multi_sig_checks(keys.drop_last()) + push_data(keys.last()) + seq![
            if keys.len() == 1 {
                0xacu8
            } else {
                0xbau8
            },
        ]
    }
}

/// A check that at least `quorum` of the keys signed, the signatures in the
/// order of the keys. One key alone takes a single signature check.
pub open spec fn multi_sig(keys: Seq<Seq<u8>>, quorum: u32, verify: bool) -> Seq<u8> {
    if keys.len() == 1 {
        single_sig(keys[0], verify)
    } else {
        multi_sig_checks(keys) + push_number(quorum as int) + seq![
            if verify {
                0x9du8
            } else {
                0x9cu8
            },
        ]
    }
}

/// The timelock path: the staker signs, after the lock time has passed.
pub open spec fn timelock_script(staker: Seq<u8>, locktime: u16) -> Seq<u8> {
    single_sig(staker, true) + push_number(locktime as int) + seq![0xb2u8]
}

/// The unbonding path: the staker signs, and a quorum of the covenant
/// committee. No lock time.
pub open spec fn unbonding_script(staker: Seq<u8>, covenants: Seq<Seq<u8>>, quorum: u32) -> Seq<
    u8,
> {
    single_sig(staker, true) + multi_sig(covenants, quorum, false)
}

/// The slashing path: the staker signs, the finality provider, and a quorum
/// of the covenant committee.
pub open spec fn slashing_script(
    staker: Seq<u8>,
    finality_provider: Seq<u8>,
    covenants: Seq<Seq<u8>>,
    quorum: u32,
) -> Seq<u8> {
    single_sig(staker, true) + multi_sig(seq![finality_provider], 1, true) + multi_sig(
        covenants,
        quorum,
        false,
    )
}

/// What the announcement of a stake holds: the protocol tag, the version, the
/// two keys and the lock time, high byte first.
pub open spec fn op_return_payload(
    tag: Seq<u8>,
    version: u8,
    staker: Seq<u8>,
    finality_provider: Seq<u8>,
    locktime: u16,
) -> Seq<u8> {
    tag + seq![version] + staker + finality_provider + be_bytes_u16(locktime)
}

/// The announcement of a stake: `OP_RETURN` and a push of the payload.
pub open spec fn op_return_script(
    tag: Seq<u8>,
    version: u8,
    staker: Seq<u8>,
    finality_provider: Seq<u8>,
    locktime: u16,
) -> Seq<u8> {
    seq![0x6au8] + push_data(op_return_payload(tag, version, staker, finality_provider, locktime))
}

fn append_single_sig(dst: &mut Script, key: &XOnlyPublicKey, verify: bool)
    ensures
        final(dst)@ == old(dst)@ + single_sig(key@, verify),
{
    dst.push_slice(key.as_slice());
    if verify {
        dst.push(OP_CHECKSIGVERIFY);
    } else {
        dst.push(OP_CHECKSIG);
    }
    assert(dst@ =~= old(dst)@ + single_sig(key@, verify));
}

fn append_multi_sig(dst: &mut Script, pubkeys: &Vec<XOnlyPublicKey>, quorum: u32, verify: bool)
    ensures
        final(dst)@ == old(dst)@ + multi_sig(key_views(pubkeys@), quorum, verify),
{
    let ghost keys = key_views(pubkeys@);
    if pubkeys.len() == 1 {
        assert(keys[0] == pubkeys@[0]@);
        append_single_sig(dst, &pubkeys[0], verify);
        return ;
    }
    let mut i: usize = 0;
    while i < pubkeys.len()
        invariant
            i <= pubkeys@.len(),
            keys == key_views(pubkeys@),
            dst@ == old(dst)@ + multi_sig_checks(keys.subrange(0, i as int)),
        decreases pubkeys@.len() - i,
    {
        dst.push_slice(pubkeys[i].as_slice());
        if i == 0 {
            dst.push(OP_CHECKSIG);
        } else {
            dst.push(OP_CHECKSIGADD);
        }
        proof {
            let next = keys.subrange(0, i + 1);
            assert(next.drop_last() =~= keys.subrange(0, i as int));
            assert(next.last() == pubkeys@[i as int]@);
            assert(dst@ =~= old(dst)@ + multi_sig_checks(next));
        }
        i += 1;
    }
    assert(keys.subrange(0, i as int) =~= keys);
    dst.push_int(quorum as i64);
    if verify {
        dst.push(OP_NUMEQUALVERIFY);
    } else {
        dst.push(OP_NUMEQUAL);
    }
    assert(dst@ =~= old(dst)@ + multi_sig(keys, quorum, verify));
}

/// The script of the timelock path.
pub fn new_timelock_script(staker_key: &XOnlyPublicKey, locktime: u16) -> (s: Script)
    ensures
        s@ == timelock_script(staker_key@, locktime),
{
    let mut s = Script::new();
    append_single_sig(&mut s, staker_key, true);
    s.push_int(locktime as i64);
    s.push(OP_CHECKSEQUENCEVERIFY);
    assert(s@ =~= timelock_script(staker_key@, locktime));
    s
}

/// The script of the unbonding path.
pub fn new_unbonding_script(staker_key: &XOnlyPublicKey, covenants: &CovenantCommittee) -> (s:
    Script)
    ensures
        s@ == unbonding_script(staker_key@, covenants.spec_keys(), covenants.spec_quorum()),
{
    let mut s = Script::new();
    append_single_sig(&mut s, staker_key, true);
    append_multi_sig(&mut s, covenants.public_keys_ordered(), covenants.quorum(), false);
    assert(s@ =~= unbonding_script(staker_key@, covenants.spec_keys(), covenants.spec_quorum()));
    s
}

/// The script of the slashing path.
pub fn new_slashing_script(
    staker_key: &XOnlyPublicKey,
    finality_provider_key: &XOnlyPublicKey,
    covenants: &CovenantCommittee,
) -> (s: Script)
    ensures
        s@ == slashing_script(
            staker_key@,
            finality_provider_key@,
            covenants.spec_keys(),
            covenants.spec_quorum(),
        ),
{
    let mut s = Script::new();
    append_single_sig(&mut s, staker_key, true);
    let mut finality_providers: Vec<XOnlyPublicKey> = Vec::new();
    finality_providers.push(*finality_provider_key);
    assert(key_views(finality_providers@) =~= seq![finality_provider_key@]);
    append_multi_sig(&mut s, &finality_providers, 1, true);
    append_multi_sig(&mut s, covenants.public_keys_ordered(), covenants.quorum(), false);
    assert(s@ =~= slashing_script(
        staker_key@,
        finality_provider_key@,
        covenants.spec_keys(),
        covenants.spec_quorum(),
    ));
    s
}

/// The script that announces a stake.
pub fn new_op_return_script(
    tag: &H32,
    version: u8,
    staker_key: &XOnlyPublicKey,
    finality_provider_key: &XOnlyPublicKey,
    locktime: u16,
) -> (s: Script)
    ensures
        s@ == op_return_script(tag@, version, staker_key@, finality_provider_key@, locktime),
{
    let mut buf: Vec<u8> = Vec::new();
    append(&mut buf, tag.as_slice());
    buf.push(version);
    append(&mut buf, staker_key.as_slice());
    append(&mut buf, finality_provider_key.as_slice());
    push_u16_be(&mut buf, locktime);
    assert(buf@ =~= op_return_payload(
        tag@,
        version,
        staker_key@,
        finality_provider_key@,
        locktime,
    ));
    let mut s = Script::new();
    s.push(OP_RETURN);
    s.push_slice(buf.as_slice());
    assert(s@ =~= op_return_script(tag@, version, staker_key@, finality_provider_key@, locktime));
    s
}

} // verus!
