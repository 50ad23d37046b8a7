use vstd::prelude::*;

use crate::state::SignerSeeds;

verus! {

/// What a transfer moves.
#[derive(Clone, Copy, Debug, PartialEq, Eq, Structural)]
pub enum Asset {
    /// Lamports, moved by the system program.
    Sol,
    /// The pool's traded token, moved by the token program.
    Token,
}

/// The two holders between which an instruction moves assets.
#[derive(Clone, Copy, Debug, PartialEq, Eq, Structural)]
pub enum Party {
    /// The signer of the instruction and its token account.
    Swapper,
    /// The pool authority and its token account; it signs with the pool's seeds.
    Pool,
}

/// One transfer that an instruction performs once its checks have passed.
#[derive(Clone, Copy, Debug, PartialEq, Eq, Structural)]
pub struct Transfer {
    pub asset: Asset,
    pub from: Party,
    pub to: Party,
    pub amount: u64,
}

/// The transfers an instruction performs, in order, and the seeds with which
/// the pool authority signs those that leave the pool.
pub struct Settlement {
    pub signer: SignerSeeds,
    pub transfers: Vec<Transfer>,
}

/// How much of `asset` the transfers move into the pool, less what they move out.
pub open spec fn net_into_pool(transfers: Seq<Transfer>, asset: Asset) -> int
    decreases transfers.len(),
{
    if transfers.len() == 0 {
        0
    } else {
        let t = transfers.last();
        let rest = net_into_pool(transfers.drop_last(), asset);
        if t.asset != asset || t.from == t.to {
            rest
        } else if t.to == Party::Pool {
            rest + t.amount
        } else {
            rest - t.amount
        }
    }
}

/// Builds a transfer.
pub fn transfer(asset: Asset, from: Party, to: Party, amount: u64) -> (r: Transfer)
    ensures
        r == (Transfer { asset, from, to, amount }),
{
    Transfer { asset, from, to, amount }
}

} // verus!
