//! Building the outputs and inputs of staking transactions.

use vstd::prelude::*;
use crate::babylon::covenant_committee::{committee_valid, key_views, CovenantCommittee};
use crate::error::{SigningError, SigningErrorType, SigningResult};
use crate::schnorr::XOnlyPublicKey;

pub mod output;
pub mod utxo;

verus! {

/// What a staking output is built from.
#[derive(Debug)]
pub struct BabylonStakingParams {
    pub staker: XOnlyPublicKey,
    pub staking_locktime: u16,
    pub finality_provider: XOnlyPublicKey,
    /// The keys of the covenant committee, in any order.
    pub covenants: Vec<XOnlyPublicKey>,
    pub covenant_quorum: u32,
}

impl BabylonStakingParams {
    /// The parameters, checked: fails with `InvalidParams` where the staking
    /// time is above 65535, or the covenant keys and the quorum make no
    /// committee.
    pub fn new(
        staker: XOnlyPublicKey,
        staking_time: u32,
        finality_provider: XOnlyPublicKey,
        covenants: Vec<XOnlyPublicKey>,
        covenant_quorum: u32,
    ) -> (r: SigningResult<BabylonStakingParams>)
        ensures
            r is Ok <==> staking_time <= 0xffff && committee_valid(
                key_views(covenants@),
                covenant_quorum,
            ),
            r matches Ok(params) ==> {
                &&& params.staker == staker
                &&& params.staking_locktime == staking_time
                &&& params.finality_provider == finality_provider
                &&& params.covenants@ == covenants@
                &&& params.covenant_quorum == covenant_quorum
            },
            r matches Err(e) ==> e.kind() == SigningErrorType::InvalidParams,
    {
        if staking_time > 0xffff {
            return Err(
                SigningError::new(
                    SigningErrorType::InvalidParams,
                    "stakingTime cannot be greater than 65535",
                ),
            );
        }
        let mut members: Vec<XOnlyPublicKey> = Vec::new();
        let mut i: usize = 0;
        while i < covenants.len()
            invariant
                i <= covenants@.len(),
                members@ == covenants@.subrange(0, i as int),
            decreases covenants@.len() - i,
        {
            members.push(covenants[i]);
            assert(members@ =~= covenants@.subrange(0, i + 1));
            i += 1;
        }
        assert(members@ =~= covenants@);
        match CovenantCommittee::new(members, covenant_quorum) {
            Ok(_) => Ok(
                BabylonStakingParams {
                    staker,
                    staking_locktime: staking_time as u16,
                    finality_provider,
                    covenants,
                    covenant_quorum,
                },
            ),
            Err(e) => Err(e),
        }
    }
}

} // verus!
