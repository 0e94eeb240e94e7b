use vstd::prelude::*;

use crate::msg::{Exchange, ExchangeV};
use crate::store::KeyedStore;

verus! {

/// The mathematical model of the whole ledger: four scalar policy fields
/// and two partial maps keyed by address.
#[verifier::ext_equal]
pub struct LedgerV {
    /// The single privileged address, set at initialization and immutable.
    pub owner: Seq<char>,
    /// The aggregate circulating token supply.
    pub total_supply: u128,
    /// The informational exchange-rate anchor.
    pub peg_price: u128,
    /// The per-call ceiling on `Withdraw` amounts.
    pub withdrawal_limit: u128,
    /// Per-address user balances; an absent entry reads as zero.
    pub balances: Map<Seq<char>, u128>,
    /// Per-address exchange sub-ledgers, at most one per creating address.
    pub exchanges: Map<Seq<char>, ExchangeV>,
}

/// A user's balance, with absent entries read as zero.
pub open spec fn user_balance_of(l: LedgerV, addr: Seq<char>) -> u128 {
    if l.balances.contains_key(addr) {
        l.balances[addr]
    } else {
        0
    }
}

/// The in-memory ledger state: the store object every operation works on.
pub struct Ledger {
    pub owner: String,
    pub total_supply: u128,
    pub peg_price: u128,
    pub withdrawal_limit: u128,
    pub balances: KeyedStore<u128>,
    pub exchanges: KeyedStore<Exchange>,
}

impl View for Ledger {
    type V = LedgerV;

    open spec fn view(&self) -> LedgerV {
        LedgerV {
            owner: self.owner@,
            total_supply: self.total_supply,
            peg_price: self.peg_price,
            withdrawal_limit: self.withdrawal_limit,
            balances: self.balances@,
            exchanges: self.exchanges@,
        }
    }
}

impl Ledger {
    /// The representation invariant: both keyed collections are well-formed
    /// stores, and every exchange is keyed by the address recorded as its
    /// owner.
    pub open spec fn wf(self) -> bool {
        &&& self.balances.wf()
        &&& self.exchanges.wf()
        &&& forall|k: Seq<char>|
            #[trigger] self@.exchanges.contains_key(k) ==> self@.exchanges[k].owner == k
    }

    /// Well-formedness depends only on the two keyed collections, so any
    /// change to the scalar fields alone preserves it.
    pub proof fn lemma_wf_same_collections(pre: Ledger, post: Ledger)
        requires
            pre.wf(),
            post.balances == pre.balances,
            post.exchanges == pre.exchanges,
        ensures
            post.wf(),
    {
        assert forall|k: Seq<char>| #[trigger] post@.exchanges.contains_key(k)
            implies post@.exchanges[k].owner == k by {
            assert(pre@.exchanges.contains_key(k));
        }
    }
}

} // verus!
