use vstd::prelude::*;

use crate::error::ErrorCode;
use crate::instructions::settlement::{transfer, Asset, Party, Settlement, Transfer};
use crate::state::{SignerSeeds, SwapPair};

verus! {

/// The transfer of a withdrawal: the whole recorded token reserve out of the pool.
pub open spec fn withdraw_transfers(pair: SwapPair) -> Seq<Transfer> {
    seq![Transfer { asset: Asset::Token, from: Party::Pool, to: Party::Swapper, amount: pair.reserve_token }]
}

/// Withdraws the pool's recorded token reserve to the signer. `authority` is
/// the result of deriving the pool authority's signer seeds. The pair itself
/// is not changed.
pub fn withdraw_all_handler(pair: &SwapPair, authority: Result<SignerSeeds, ErrorCode>) -> (r: Result<Settlement, ErrorCode>)
    ensures
        match authority {
            Err(e) => r == Err::<Settlement, ErrorCode>(e),
            Ok(seeds) => r is Ok && r.unwrap().signer == seeds
                && r.unwrap().transfers@ == withdraw_transfers(*pair),
        },
        // The same, stated directly against the inputs.
        r is Ok <==> authority is Ok,
        r is Ok ==> {
            &&& authority == Ok::<SignerSeeds, ErrorCode>(r.unwrap().signer)
            &&& r.unwrap().transfers@.len() == 1
            &&& r.unwrap().transfers@[0] == (Transfer { asset: Asset::Token, from: Party::Pool, to: Party::Swapper, amount: pair.reserve_token })
        },
{
    let signer = match authority {
        Ok(s) => s,
        Err(e) => return Err(e),
    };
    let mut transfers: Vec<Transfer> = Vec::new();
    transfers.push(transfer(Asset::Token, Party::Pool, Party::Swapper, pair.reserve_token));
    assert(transfers@ =~= withdraw_transfers(*pair));
    Ok(Settlement { signer, transfers })
}

} // verus!
