use vstd::prelude::*;

use crate::contract::{
    burn_post, buy_post, create_exchange_post, execute_post, mint_post, sell_post, withdraw_post,
};
use crate::error::ContractError;
use crate::msg::ExecuteMsg;
use crate::response::Outcome;
use crate::state::{user_balance_of, LedgerV};

verus! {

/// Minting an amount and then burning the same amount restores the ledger
/// exactly: both calls succeed (the owner is calling, the amount is
/// positive, and the mint fits the supply's integer type), and the final
/// state equals the initial one — in particular the total supply.
pub proof fn lemma_mint_burn_restores(
    pre: LedgerV,
    mid: LedgerV,
    post: LedgerV,
    sender: Seq<char>,
    amount: u128,
    r1: Result<Outcome, ContractError>,
    r2: Result<Outcome, ContractError>,
)
    requires
        amount > 0,
        sender == pre.owner,
        pre.total_supply + amount <= u128::MAX,
        mint_post(pre, mid, sender, amount, r1),
        burn_post(mid, post, sender, amount, r2),
    ensures
        r1 is Ok,
        r2 is Ok,
        post.total_supply == pre.total_supply,
        post == pre,
{
    assert(post =~= pre);
}

/// Burning more than the current supply fails with `InsufficientFunds` and
/// leaves the ledger unchanged, whenever the owner asks for it.
pub proof fn lemma_burn_above_supply_rejected(
    pre: LedgerV,
    post: LedgerV,
    sender: Seq<char>,
    amount: u128,
    r: Result<Outcome, ContractError>,
)
    requires
        sender == pre.owner,
        amount > pre.total_supply,
        burn_post(pre, post, sender, amount, r),
    ensures
        r == Result::<Outcome, ContractError>::Err(ContractError::InsufficientFunds {}),
        post == pre,
{
}

/// `Withdraw(amount)` succeeds exactly when the amount is positive, within
/// the withdrawal limit, and within the supply; each failure comes with its
/// specific error, and any failure leaves the supply unchanged.
pub proof fn lemma_withdraw_exact_conditions(
    pre: LedgerV,
    post: LedgerV,
    amount: u128,
    r: Result<Outcome, ContractError>,
)
    requires
        withdraw_post(pre, post, amount, r),
    ensures
        r is Ok <==> (0 < amount && amount <= pre.withdrawal_limit && amount
            <= pre.total_supply),
        r is Ok ==> post.total_supply == pre.total_supply - amount,
        amount == 0 ==> r == Result::<Outcome, ContractError>::Err(
            ContractError::InvalidAmount {},
        ),
        0 < amount && amount > pre.withdrawal_limit ==> r == Result::<Outcome, ContractError>::Err(
            ContractError::WithdrawalLimitExceeded {},
        ),
        0 < amount && amount <= pre.withdrawal_limit && amount > pre.total_supply ==> r == Result::<
            Outcome,
            ContractError,
        >::Err(ContractError::InsufficientFunds {}),
        r is Err ==> post == pre,
{
}

/// Creating an exchange twice for the same address fails the second time
/// with `ExchangeAlreadyExists` (provided the second request's funds are
/// positive, or the amount check would reject it first), and the exchange
/// created by the first call — its balance in particular — is untouched.
pub proof fn lemma_create_exchange_once(
    pre: LedgerV,
    mid: LedgerV,
    post: LedgerV,
    sender: Seq<char>,
    name1: Seq<char>,
    funds1: u128,
    limit1: u128,
    name2: Seq<char>,
    funds2: u128,
    limit2: u128,
    o1: Outcome,
    r2: Result<Outcome, ContractError>,
)
    requires
        funds2 > 0,
        create_exchange_post(pre, mid, sender, name1, funds1, limit1, Ok(o1)),
        create_exchange_post(mid, post, sender, name2, funds2, limit2, r2),
    ensures
        r2 == Result::<Outcome, ContractError>::Err(ContractError::ExchangeAlreadyExists {}),
        post == mid,
        post.exchanges[sender].balance == funds1,
{
}

/// Buying from an exchange and then selling the same amount back, by the
/// same caller, restores both the exchange's balance and the caller's user
/// balance to their values before the buy.
pub proof fn lemma_buy_sell_restores(
    pre: LedgerV,
    mid: LedgerV,
    post: LedgerV,
    sender: Seq<char>,
    exchange_address: Seq<char>,
    amount: u128,
    o1: Outcome,
    r2: Result<Outcome, ContractError>,
)
    requires
        user_balance_of(pre, sender) + amount <= u128::MAX,
        buy_post(pre, mid, sender, exchange_address, amount, Ok(o1)),
        sell_post(mid, post, sender, exchange_address, amount, r2),
    ensures
        r2 is Ok,
        post.exchanges[exchange_address].balance == pre.exchanges[exchange_address].balance,
        user_balance_of(post, sender) == user_balance_of(pre, sender),
{
    assert(mid.exchanges.contains_key(exchange_address));
    assert(user_balance_of(mid, sender) == user_balance_of(pre, sender) + amount);
    assert(post.exchanges[exchange_address].balance == pre.exchanges[exchange_address].balance);
}

/// The operation `msg` is reserved to the owner.
pub open spec fn owner_only(msg: ExecuteMsg) -> bool {
    match msg {
        ExecuteMsg::Mint { .. } => true,
        ExecuteMsg::Burn { .. } => true,
        ExecuteMsg::UpdatePegPrice { .. } => true,
        ExecuteMsg::UpdateWithdrawalLimit { .. } => true,
        ExecuteMsg::CorrectTotalSupply { .. } => true,
        _ => false,
    }
}

/// The single amount carried by an owner-only operation.
pub open spec fn owner_only_amount(msg: ExecuteMsg) -> u128 {
    match msg {
        ExecuteMsg::Mint { amount } => amount,
        ExecuteMsg::Burn { amount } => amount,
        ExecuteMsg::UpdatePegPrice { peg_price } => peg_price,
        ExecuteMsg::UpdateWithdrawalLimit { limit } => limit,
        ExecuteMsg::CorrectTotalSupply { desired_total_supply } => desired_total_supply,
        _ => 0,
    }
}

/// Every owner-only operation, when invoked by a caller other than the
/// owner, fails with `Unauthorized` and changes no state.  (The operation's
/// amount must be positive: a zero amount is rejected as `InvalidAmount`
/// before the caller is even looked at.)
pub proof fn lemma_owner_only_rejected(
    pre: LedgerV,
    post: LedgerV,
    sender: Seq<char>,
    msg: ExecuteMsg,
    r: Result<Outcome, ContractError>,
)
    requires
        owner_only(msg),
        owner_only_amount(msg) > 0,
        sender != pre.owner,
        execute_post(pre, post, sender, msg, r),
    ensures
        r == Result::<Outcome, ContractError>::Err(ContractError::Unauthorized {}),
        post == pre,
{
}

} // verus!
