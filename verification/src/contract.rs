use vstd::prelude::*;
use vstd::string::StringExecFns;

use crate::error::ContractError;
use crate::helpers::validate_positive_amount;
use crate::msg::{Coin, Exchange, ExchangeV, ExecuteMsg, InstantiateMsg, QueryAnswer, QueryMsg};
use crate::response::{
    action_amount_outcome, is_action_amount_outcome, is_coins_attr, is_text_attr, text_attr,
    AttrValue, Attribute, Outcome, Payment,
};
use crate::state::{user_balance_of, Ledger, LedgerV};
use crate::store::{lex_lt, KeyedStore};

verus! {

// ---------------------------------------------------------------------------
// Transition predicates
//
// Each mutating operation is specified as a relation between the ledger
// model before the call, the model after it, the caller, the operation's
// parameters and its result.  The `Ok` arm pins the new state and the
// outcome; the `Err` arm pins the error and says the state is untouched.
// ---------------------------------------------------------------------------

/// `post` agrees with `pre` on everything except possibly the total supply.
pub open spec fn same_but_supply(pre: LedgerV, post: LedgerV) -> bool {
    &&& post.owner == pre.owner
    &&& post.peg_price == pre.peg_price
    &&& post.withdrawal_limit == pre.withdrawal_limit
    &&& post.balances == pre.balances
    &&& post.exchanges == pre.exchanges
}

/// `post` agrees with `pre` on everything except possibly the peg price.
pub open spec fn same_but_peg_price(pre: LedgerV, post: LedgerV) -> bool {
    &&& post.owner == pre.owner
    &&& post.total_supply == pre.total_supply
    &&& post.withdrawal_limit == pre.withdrawal_limit
    &&& post.balances == pre.balances
    &&& post.exchanges == pre.exchanges
}

/// `post` agrees with `pre` on everything except possibly the withdrawal limit.
pub open spec fn same_but_withdrawal_limit(pre: LedgerV, post: LedgerV) -> bool {
    &&& post.owner == pre.owner
    &&& post.total_supply == pre.total_supply
    &&& post.peg_price == pre.peg_price
    &&& post.balances == pre.balances
    &&& post.exchanges == pre.exchanges
}

/// `post` agrees with `pre` on everything except possibly the exchanges.
pub open spec fn same_but_exchanges(pre: LedgerV, post: LedgerV) -> bool {
    &&& post.owner == pre.owner
    &&& post.total_supply == pre.total_supply
    &&& post.peg_price == pre.peg_price
    &&& post.withdrawal_limit == pre.withdrawal_limit
    &&& post.balances == pre.balances
}

/// `post` agrees with `pre` on the scalar policy fields; the keyed
/// collections may differ.
pub open spec fn same_scalars(pre: LedgerV, post: LedgerV) -> bool {
    &&& post.owner == pre.owner
    &&& post.total_supply == pre.total_supply
    &&& post.peg_price == pre.peg_price
    &&& post.withdrawal_limit == pre.withdrawal_limit
}

/// The exchange record `e` with its balance replaced by `b`.
pub open spec fn exchange_with_balance(e: ExchangeV, b: u128) -> ExchangeV {
    ExchangeV { name: e.name, balance: b, withdrawal_limit: e.withdrawal_limit, owner: e.owner }
}

/// `Mint(amount)`: owner only; requires a positive amount; adds `amount` to
/// the total supply.
pub open spec fn mint_post(
    pre: LedgerV,
    post: LedgerV,
    sender: Seq<char>,
    amount: u128,
    r: Result<Outcome, ContractError>,
) -> bool {
    match r {
        Ok(o) => {
            &&& amount > 0
            &&& sender == pre.owner
            &&& post.total_supply == pre.total_supply + amount
            &&& same_but_supply(pre, post)
            &&& is_action_amount_outcome(o, "mint"@, "amount"@, amount)
        },
        Err(e) => {
            &&& post == pre
            &&& if amount == 0 {
                e == (ContractError::InvalidAmount {})
            } else {
                sender != pre.owner && e == (ContractError::Unauthorized {})
            }
        },
    }
}

/// `Burn(amount)`: owner only; requires a positive amount not above the
/// supply; subtracts `amount` from the total supply.
pub open spec fn burn_post(
    pre: LedgerV,
    post: LedgerV,
    sender: Seq<char>,
    amount: u128,
    r: Result<Outcome, ContractError>,
) -> bool {
    match r {
        Ok(o) => {
            &&& amount > 0
            &&& sender == pre.owner
            &&& amount <= pre.total_supply
            &&& post.total_supply == pre.total_supply - amount
            &&& same_but_supply(pre, post)
            &&& is_action_amount_outcome(o, "burn"@, "amount"@, amount)
        },
        Err(e) => {
            &&& post == pre
            &&& if amount == 0 {
                e == (ContractError::InvalidAmount {})
            } else if sender != pre.owner {
                e == (ContractError::Unauthorized {})
            } else {
                amount > pre.total_supply && e == (ContractError::InsufficientFunds {})
            }
        },
    }
}

/// `UpdatePegPrice(price)`: owner only; requires a positive price; sets the
/// peg price.
pub open spec fn update_peg_price_post(
    pre: LedgerV,
    post: LedgerV,
    sender: Seq<char>,
    peg_price: u128,
    r: Result<Outcome, ContractError>,
) -> bool {
    match r {
        Ok(o) => {
            &&& peg_price > 0
            &&& sender == pre.owner
            &&& post.peg_price == peg_price
            &&& same_but_peg_price(pre, post)
            &&& is_action_amount_outcome(o, "update_peg_price"@, "peg_price"@, peg_price)
        },
        Err(e) => {
            &&& post == pre
            &&& if peg_price == 0 {
                e == (ContractError::InvalidAmount {})
            } else {
                sender != pre.owner && e == (ContractError::Unauthorized {})
            }
        },
    }
}

/// `Deposit(amount)`: any caller; requires a positive amount; adds `amount`
/// to the total supply.
pub open spec fn deposit_post(
    pre: LedgerV,
    post: LedgerV,
    amount: u128,
    r: Result<Outcome, ContractError>,
) -> bool {
    match r {
        Ok(o) => {
            &&& amount > 0
            &&& post.total_supply == pre.total_supply + amount
            &&& same_but_supply(pre, post)
            &&& is_action_amount_outcome(o, "deposit"@, "amount"@, amount)
        },
        Err(e) => {
            &&& post == pre
            &&& amount == 0
            &&& e == (ContractError::InvalidAmount {})
        },
    }
}

/// `Withdraw(amount)`: any caller; requires a positive amount within the
/// withdrawal limit and the supply; subtracts `amount` from the supply.
pub open spec fn withdraw_post(
    pre: LedgerV,
    post: LedgerV,
    amount: u128,
    r: Result<Outcome, ContractError>,
) -> bool {
    match r {
        Ok(o) => {
            &&& amount > 0
            &&& amount <= pre.withdrawal_limit
            &&& amount <= pre.total_supply
            &&& post.total_supply == pre.total_supply - amount
            &&& same_but_supply(pre, post)
            &&& is_action_amount_outcome(o, "withdraw"@, "amount"@, amount)
        },
        Err(e) => {
            &&& post == pre
            &&& if amount == 0 {
                e == (ContractError::InvalidAmount {})
            } else if amount > pre.withdrawal_limit {
                e == (ContractError::WithdrawalLimitExceeded {})
            } else {
                amount > pre.total_supply && e == (ContractError::InsufficientFunds {})
            }
        },
    }
}

/// `UpdateWithdrawalLimit(limit)`: owner only; requires a positive limit;
/// sets the withdrawal limit.
pub open spec fn update_withdrawal_limit_post(
    pre: LedgerV,
    post: LedgerV,
    sender: Seq<char>,
    limit: u128,
    r: Result<Outcome, ContractError>,
) -> bool {
    match r {
        Ok(o) => {
            &&& limit > 0
            &&& sender == pre.owner
            &&& post.withdrawal_limit == limit
            &&& same_but_withdrawal_limit(pre, post)
            &&& is_action_amount_outcome(o, "update_withdrawal_limit"@, "limit"@, limit)
        },
        Err(e) => {
            &&& post == pre
            &&& if limit == 0 {
                e == (ContractError::InvalidAmount {})
            } else {
                sender != pre.owner && e == (ContractError::Unauthorized {})
            }
        },
    }
}

/// `CorrectTotalSupply(target)`: owner only; requires a positive target;
/// sets the supply to `target`, whichever direction that moves it.
pub open spec fn correct_total_supply_post(
    pre: LedgerV,
    post: LedgerV,
    sender: Seq<char>,
    desired_total_supply: u128,
    r: Result<Outcome, ContractError>,
) -> bool {
    match r {
        Ok(o) => {
            &&& desired_total_supply > 0
            &&& sender == pre.owner
            &&& post.total_supply == desired_total_supply
            &&& same_but_supply(pre, post)
            &&& is_action_amount_outcome(
                o,
                "create exchange"@,
                "correct supply"@,
                desired_total_supply,
            )
        },
        Err(e) => {
            &&& post == pre
            &&& if desired_total_supply == 0 {
                e == (ContractError::InvalidAmount {})
            } else {
                sender != pre.owner && e == (ContractError::Unauthorized {})
            }
        },
    }
}

/// `CreateExchange(name, initialFunds, limit)`: any caller, at most once
/// per address; requires positive initial funds and no existing exchange
/// for the caller; stores the new exchange under the caller's address.
pub open spec fn create_exchange_post(
    pre: LedgerV,
    post: LedgerV,
    sender: Seq<char>,
    name: Seq<char>,
    initial_funds: u128,
    withdrawal_limit: u128,
    r: Result<Outcome, ContractError>,
) -> bool {
    match r {
        Ok(o) => {
            &&& initial_funds > 0
            &&& !pre.exchanges.contains_key(sender)
            &&& post.exchanges == pre.exchanges.insert(
                sender,
                ExchangeV { name, balance: initial_funds, withdrawal_limit, owner: sender },
            )
            &&& same_but_exchanges(pre, post)
            &&& is_action_amount_outcome(o, "create exchange"@, "initial_funds"@, initial_funds)
        },
        Err(e) => {
            &&& post == pre
            &&& if initial_funds == 0 {
                e == (ContractError::InvalidAmount {})
            } else {
                pre.exchanges.contains_key(sender) && e == (ContractError::ExchangeAlreadyExists {})
            }
        },
    }
}

/// `BuyFromExchange(addr, amount)`: any caller; requires a positive amount
/// covered by the exchange's balance; moves `amount` from the exchange's
/// balance to the caller's user balance.
pub open spec fn buy_post(
    pre: LedgerV,
    post: LedgerV,
    sender: Seq<char>,
    exchange_address: Seq<char>,
    amount: u128,
    r: Result<Outcome, ContractError>,
) -> bool {
    match r {
        Ok(o) => {
            &&& amount > 0
            &&& pre.exchanges.contains_key(exchange_address)
            &&& amount <= pre.exchanges[exchange_address].balance
            &&& post.exchanges == pre.exchanges.insert(
                exchange_address,
                exchange_with_balance(
                    pre.exchanges[exchange_address],
                    (pre.exchanges[exchange_address].balance - amount) as u128,
                ),
            )
            &&& post.balances == pre.balances.insert(
                sender,
                (user_balance_of(pre, sender) + amount) as u128,
            )
            &&& same_scalars(pre, post)
            &&& is_action_amount_outcome(o, "buy_coins"@, "amount"@, amount)
        },
        Err(e) => {
            &&& post == pre
            &&& if amount == 0 {
                e == (ContractError::InvalidAmount {})
            } else if !pre.exchanges.contains_key(exchange_address) {
                e == (ContractError::ExchangeNotFound {})
            } else {
                amount > pre.exchanges[exchange_address].balance && e
                    == (ContractError::InsufficientFunds {})
            }
        },
    }
}

/// `SellToExchange(addr, amount)`: any caller; requires a positive amount
/// covered by the caller's user balance; moves `amount` from the caller's
/// user balance to the exchange's balance.
pub open spec fn sell_post(
    pre: LedgerV,
    post: LedgerV,
    sender: Seq<char>,
    exchange_address: Seq<char>,
    amount: u128,
    r: Result<Outcome, ContractError>,
) -> bool {
    match r {
        Ok(o) => {
            &&& amount > 0
            &&& amount <= user_balance_of(pre, sender)
            &&& pre.exchanges.contains_key(exchange_address)
            &&& post.exchanges == pre.exchanges.insert(
                exchange_address,
                exchange_with_balance(
                    pre.exchanges[exchange_address],
                    (pre.exchanges[exchange_address].balance + amount) as u128,
                ),
            )
            &&& post.balances == pre.balances.insert(
                sender,
                (user_balance_of(pre, sender) - amount) as u128,
            )
            &&& same_scalars(pre, post)
            &&& is_action_amount_outcome(o, "sell_coins"@, "amount"@, amount)
        },
        Err(e) => {
            &&& post == pre
            &&& if amount == 0 {
                e == (ContractError::InvalidAmount {})
            } else if amount > user_balance_of(pre, sender) {
                e == (ContractError::InsufficientFunds {})
            } else {
                !pre.exchanges.contains_key(exchange_address) && e
                    == (ContractError::ExchangeNotFound {})
            }
        },
    }
}

/// `TransferFunds(recipient, coins)`: any caller; requires a non-empty coin
/// list; changes no ledger state and requests one outbound payment.
pub open spec fn transfer_funds_post(
    pre: LedgerV,
    post: LedgerV,
    sender: Seq<char>,
    recipient: Seq<char>,
    coins: Seq<Coin>,
    r: Result<Outcome, ContractError>,
) -> bool {
    match r {
        Ok(o) => {
            &&& coins.len() > 0
            &&& post == pre
            &&& o.attributes@.len() == 4
            &&& is_text_attr(o.attributes@[0], "action"@, "send_payment"@)
            &&& is_text_attr(o.attributes@[1], "sender"@, sender)
            &&& is_text_attr(o.attributes@[2], "recipient"@, recipient)
            &&& is_coins_attr(o.attributes@[3], "amount"@, coins)
            &&& match o.payment {
                Some(p) => p.to_address@ == recipient && p.coins@ == coins,
                None => false,
            }
        },
        Err(e) => {
            &&& post == pre
            &&& coins.len() == 0
            &&& e == (ContractError::InvalidAmount {})
        },
    }
}

/// The machine-limit preconditions of `execute`: the additions the
/// operation performs must fit in the supply's and balances' integer type.
pub open spec fn execute_pre(pre: LedgerV, sender: Seq<char>, msg: ExecuteMsg) -> bool {
    match msg {
        ExecuteMsg::Mint { amount } => pre.total_supply + amount <= u128::MAX,
        ExecuteMsg::Deposit { amount } => pre.total_supply + amount <= u128::MAX,
        ExecuteMsg::BuyFromExchange { amount, .. } => user_balance_of(pre, sender) + amount
            <= u128::MAX,
        ExecuteMsg::SellToExchange { exchange_address, amount } => pre.exchanges.contains_key(
            exchange_address@,
        ) ==> pre.exchanges[exchange_address@].balance + amount <= u128::MAX,
        _ => true,
    }
}

/// What `execute` does, by operation.
pub open spec fn execute_post(
    pre: LedgerV,
    post: LedgerV,
    sender: Seq<char>,
    msg: ExecuteMsg,
    r: Result<Outcome, ContractError>,
) -> bool {
    match msg {
        ExecuteMsg::Mint { amount } => mint_post(pre, post, sender, amount, r),
        ExecuteMsg::Burn { amount } => burn_post(pre, post, sender, amount, r),
        ExecuteMsg::UpdatePegPrice { peg_price } => update_peg_price_post(
            pre,
            post,
            sender,
            peg_price,
            r,
        ),
        ExecuteMsg::Deposit { amount } => deposit_post(pre, post, amount, r),
        ExecuteMsg::Withdraw { amount } => withdraw_post(pre, post, amount, r),
        ExecuteMsg::UpdateWithdrawalLimit { limit } => update_withdrawal_limit_post(
            pre,
            post,
            sender,
            limit,
            r,
        ),
        ExecuteMsg::CorrectTotalSupply { desired_total_supply } => correct_total_supply_post(
            pre,
            post,
            sender,
            desired_total_supply,
            r,
        ),
        ExecuteMsg::CreateNewExchange { name, withdrawal_limit, initial_funds } => {
            create_exchange_post(pre, post, sender, name@, initial_funds, withdrawal_limit, r)
        },
        ExecuteMsg::BuyFromExchange { exchange_address, amount } => {
            buy_post(pre, post, sender, exchange_address@, amount, r)
        },
        ExecuteMsg::SellToExchange { exchange_address, amount } => {
            sell_post(pre, post, sender, exchange_address@, amount, r)
        },
        ExecuteMsg::TransferFunds { recipient, amount } => {
            transfer_funds_post(pre, post, sender, recipient@, amount@, r)
        },
    }
}

/// What initialization establishes.
pub open spec fn instantiate_post(
    l: LedgerV,
    sender: Seq<char>,
    msg: InstantiateMsg,
    o: Outcome,
) -> bool {
    &&& l.owner == sender
    &&& l.total_supply == msg.initial_supply
    &&& l.peg_price == msg.peg_price
    &&& l.withdrawal_limit == 0
    &&& l.balances == Map::<Seq<char>, u128>::empty()
    &&& l.exchanges == Map::<Seq<char>, ExchangeV>::empty()
    &&& o.attributes@.len() == 1
    &&& is_text_attr(o.attributes@[0], "method"@, "instantiate"@)
    &&& o.payment is None
}

// ---------------------------------------------------------------------------
// The accounting engine
// ---------------------------------------------------------------------------

impl Ledger {
    /// Initializes a fresh ledger: the initializing caller becomes the
    /// owner, supply and peg price are taken as given, the withdrawal limit
    /// starts at zero (withdrawals disabled until the owner raises it), and
    /// both keyed collections start empty.
    pub fn instantiate(sender: &String, msg: InstantiateMsg) -> (r: (Ledger, Outcome))
        ensures
            r.0.wf(),
            instantiate_post(r.0@, sender@, msg, r.1),
    {
        let ledger = Ledger {
            owner: sender.clone(),
            total_supply: msg.initial_supply,
            peg_price: msg.peg_price,
            withdrawal_limit: 0,
            balances: KeyedStore::new(),
            exchanges: KeyedStore::new(),
        };
        let mut attributes: Vec<Attribute> = Vec::new();
        attributes.push(text_attr("method", "instantiate"));
        (ledger, Outcome { attributes, payment: None })
    }

    /// Adds `amount` to the total supply.  Owner only; the amount must be
    /// positive.
    pub fn execute_mint(&mut self, sender: &String, amount: u128) -> (r: Result<
        Outcome,
        ContractError,
    >)
        requires
            old(self).wf(),
            old(self)@.total_supply + amount <= u128::MAX,
        ensures
            final(self).wf(),
            mint_post(old(self)@, final(self)@, sender@, amount, r),
    {
        match validate_positive_amount(amount) {
            Err(e) => {
                return Err(e);
            },
            Ok(()) => {},
        }
        if *sender != self.owner {
            return Err(ContractError::Unauthorized {});
        }
        self.total_supply = self.total_supply + amount;
        proof {
            Ledger::lemma_wf_same_collections(*old(self), *self);
        }
        Ok(action_amount_outcome("mint", "amount", amount))
    }

    /// Subtracts `amount` from the total supply.  Owner only; the amount
    /// must be positive and covered by the supply.
    pub fn execute_burn(&mut self, sender: &String, amount: u128) -> (r: Result<
        Outcome,
        ContractError,
    >)
        requires
            old(self).wf(),
        ensures
            final(self).wf(),
            burn_post(old(self)@, final(self)@, sender@, amount, r),
    {
        match validate_positive_amount(amount) {
            Err(e) => {
                return Err(e);
            },
            Ok(()) => {},
        }
        if *sender != self.owner {
            return Err(ContractError::Unauthorized {});
        }
        if self.total_supply < amount {
            return Err(ContractError::InsufficientFunds {});
        }
        self.total_supply = self.total_supply - amount;
        proof {
            Ledger::lemma_wf_same_collections(*old(self), *self);
        }
        Ok(action_amount_outcome("burn", "amount", amount))
    }

    /// Sets the peg price.  Owner only; the price must be positive.
    pub fn execute_update_peg_price(&mut self, sender: &String, peg_price: u128) -> (r: Result<
        Outcome,
        ContractError,
    >)
        requires
            old(self).wf(),
        ensures
            final(self).wf(),
            update_peg_price_post(old(self)@, final(self)@, sender@, peg_price, r),
    {
        match validate_positive_amount(peg_price) {
            Err(e) => {
                return Err(e);
            },
            Ok(()) => {},
        }
        if *sender != self.owner {
            return Err(ContractError::Unauthorized {});
        }
        self.peg_price = peg_price;
        proof {
            Ledger::lemma_wf_same_collections(*old(self), *self);
        }
        Ok(action_amount_outcome("update_peg_price", "peg_price", peg_price))
    }

    /// Adds `amount` to the total supply as an aggregate inflow.  Any
    /// caller; the amount must be positive.
    pub fn execute_deposit(&mut self, amount: u128) -> (r: Result<Outcome, ContractError>)
        requires
            old(self).wf(),
            old(self)@.total_supply + amount <= u128::MAX,
        ensures
            final(self).wf(),
            deposit_post(old(self)@, final(self)@, amount, r),
    {
        match validate_positive_amount(amount) {
            Err(e) => {
                return Err(e);
            },
            Ok(()) => {},
        }
        self.total_supply = self.total_supply + amount;
        proof {
            Ledger::lemma_wf_same_collections(*old(self), *self);
        }
        Ok(action_amount_outcome("deposit", "amount", amount))
    }

    /// Subtracts `amount` from the total supply as an aggregate outflow.
    /// Any caller; the amount must be positive, within the per-call
    /// withdrawal limit, and covered by the supply.
    pub fn execute_withdraw(&mut self, amount: u128) -> (r: Result<Outcome, ContractError>)
        requires
            old(self).wf(),
        ensures
            final(self).wf(),
            withdraw_post(old(self)@, final(self)@, amount, r),
    {
        match validate_positive_amount(amount) {
            Err(e) => {
                return Err(e);
            },
            Ok(()) => {},
        }
        if amount > self.withdrawal_limit {
            return Err(ContractError::WithdrawalLimitExceeded {});
        }
        if self.total_supply < amount {
            return Err(ContractError::InsufficientFunds {});
        }
        self.total_supply = self.total_supply - amount;
        proof {
            Ledger::lemma_wf_same_collections(*old(self), *self);
        }
        Ok(action_amount_outcome("withdraw", "amount", amount))
    }

    /// Sets the per-call withdrawal limit.  Owner only; the limit must be
    /// positive.
    pub fn execute_update_withdrawal_limit(&mut self, sender: &String, limit: u128) -> (r: Result<
        Outcome,
        ContractError,
    >)
        requires
            old(self).wf(),
        ensures
            final(self).wf(),
            update_withdrawal_limit_post(old(self)@, final(self)@, sender@, limit, r),
    {
        match validate_positive_amount(limit) {
            Err(e) => {
                return Err(e);
            },
            Ok(()) => {},
        }
        if *sender != self.owner {
            return Err(ContractError::Unauthorized {});
        }
        self.withdrawal_limit = limit;
        proof {
            Ledger::lemma_wf_same_collections(*old(self), *self);
        }
        Ok(action_amount_outcome("update_withdrawal_limit", "limit", limit))
    }

    /// Forces the total supply to `desired_total_supply`.  Owner only; the
    /// target must be positive.  The direction of the correction is decided
    /// by comparison, never by unsigned subtraction.
    pub fn execute_correct_total_supply(
        &mut self,
        sender: &String,
        desired_total_supply: u128,
    ) -> (r: Result<Outcome, ContractError>)
        requires
            old(self).wf(),
        ensures
            final(self).wf(),
            correct_total_supply_post(old(self)@, final(self)@, sender@, desired_total_supply, r),
    {
        match validate_positive_amount(desired_total_supply) {
            Err(e) => {
                return Err(e);
            },
            Ok(()) => {},
        }
        if *sender != self.owner {
            return Err(ContractError::Unauthorized {});
        }
        self.total_supply = desired_total_supply;
        proof {
            Ledger::lemma_wf_same_collections(*old(self), *self);
        }
        Ok(action_amount_outcome("create exchange", "correct supply", desired_total_supply))
    }

    /// Creates the caller's exchange sub-ledger, at most once per address.
    /// Any caller; the initial funds must be positive.
    pub fn execute_create_new_exchange(
        &mut self,
        sender: &String,
        name: String,
        initial_funds: u128,
        withdrawal_limit: u128,
    ) -> (r: Result<Outcome, ContractError>)
        requires
            old(self).wf(),
        ensures
            final(self).wf(),
            create_exchange_post(
                old(self)@,
                final(self)@,
                sender@,
                name@,
                initial_funds,
                withdrawal_limit,
                r,
            ),
    {
        match validate_positive_amount(initial_funds) {
            Err(e) => {
                return Err(e);
            },
            Ok(()) => {},
        }
        if self.exchanges.contains(sender) {
            return Err(ContractError::ExchangeAlreadyExists {});
        }
        let exchange = Exchange {
            name,
            balance: initial_funds,
            withdrawal_limit,
            owner: sender.clone(),
        };
        self.exchanges.set(sender, exchange);
        proof {
            assert forall|k: Seq<char>| #[trigger] self@.exchanges.contains_key(k)
                implies self@.exchanges[k].owner == k by {
                if k != sender@ {
                    assert(old(self)@.exchanges.contains_key(k));
                }
            }
        }
        Ok(action_amount_outcome("create exchange", "initial_funds", initial_funds))
    }

    /// Moves `amount` from the exchange's balance to the caller's user
    /// balance.  Any caller; the amount must be positive, the exchange must
    /// exist, and its balance must cover the amount.
    pub fn execute_buy_from_exchange(
        &mut self,
        sender: &String,
        exchange_address: &String,
        amount: u128,
    ) -> (r: Result<Outcome, ContractError>)
        requires
            old(self).wf(),
            user_balance_of(old(self)@, sender@) + amount <= u128::MAX,
        ensures
            final(self).wf(),
            buy_post(old(self)@, final(self)@, sender@, exchange_address@, amount, r),
    {
        match validate_positive_amount(amount) {
            Err(e) => {
                return Err(e);
            },
            Ok(()) => {},
        }
        let updated: Exchange;
        match self.exchanges.get(exchange_address) {
            None => {
                return Err(ContractError::ExchangeNotFound {});
            },
            Some(e) => {
                if amount > e.balance {
                    return Err(ContractError::InsufficientFunds {});
                }
                proof {
                    assert(old(self)@.exchanges.contains_key(exchange_address@));
                    assert(e@.owner == exchange_address@);
                }
                let mut d = e.duplicate();
                d.balance = d.balance - amount;
                updated = d;
            },
        }
        let ghost updated_v = updated@;
        self.exchanges.set(exchange_address, updated);
        let new_balance: u128 = match self.balances.get(sender) {
            Some(b) => *b + amount,
            None => amount,
        };
        self.balances.set(sender, new_balance);
        proof {
            assert forall|k: Seq<char>| #[trigger] self@.exchanges.contains_key(k)
                implies self@.exchanges[k].owner == k by {
                if k != exchange_address@ {
                    assert(old(self)@.exchanges.contains_key(k));
                } else {
                    assert(self@.exchanges[k] == updated_v);
                }
            }
        }
        Ok(action_amount_outcome("buy_coins", "amount", amount))
    }

    /// Moves `amount` from the caller's user balance to the exchange's
    /// balance.  Any caller; the amount must be positive, covered by the
    /// caller's balance, and the exchange must exist.
    pub fn execute_sell_to_exchange(
        &mut self,
        sender: &String,
        exchange_address: &String,
        amount: u128,
    ) -> (r: Result<Outcome, ContractError>)
        requires
            old(self).wf(),
            old(self)@.exchanges.contains_key(exchange_address@) ==> old(
                self,
            )@.exchanges[exchange_address@].balance + amount <= u128::MAX,
        ensures
            final(self).wf(),
            sell_post(old(self)@, final(self)@, sender@, exchange_address@, amount, r),
    {
        match validate_positive_amount(amount) {
            Err(e) => {
                return Err(e);
            },
            Ok(()) => {},
        }
        let user_balance: u128 = match self.balances.get(sender) {
            Some(b) => *b,
            None => 0,
        };
        if amount > user_balance {
            return Err(ContractError::InsufficientFunds {});
        }
        let updated: Exchange;
        match self.exchanges.get(exchange_address) {
            None => {
                return Err(ContractError::ExchangeNotFound {});
            },
            Some(e) => {
                proof {
                    assert(old(self)@.exchanges.contains_key(exchange_address@));
                    assert(e@.owner == exchange_address@);
                }
                let mut d = e.duplicate();
                d.balance = d.balance + amount;
                updated = d;
            },
        }
        let ghost updated_v = updated@;
        self.exchanges.set(exchange_address, updated);
        self.balances.set(sender, user_balance - amount);
        proof {
            assert forall|k: Seq<char>| #[trigger] self@.exchanges.contains_key(k)
                implies self@.exchanges[k].owner == k by {
                if k != exchange_address@ {
                    assert(old(self)@.exchanges.contains_key(k));
                } else {
                    assert(self@.exchanges[k] == updated_v);
                }
            }
        }
        Ok(action_amount_outcome("sell_coins", "amount", amount))
    }

    /// Requests an outbound payment of `amount` to `recipient`.  Any
    /// caller; the coin list must be non-empty.  No ledger state changes.
    pub fn execute_transfer_funds(
        &self,
        sender: &String,
        recipient: String,
        amount: Vec<Coin>,
    ) -> (r: Result<Outcome, ContractError>)
        ensures
            transfer_funds_post(self@, self@, sender@, recipient@, amount@, r),
    {
        if amount.is_empty() {
            return Err(ContractError::InvalidAmount {});
        }
        let coins = clone_coins(&amount);
        let mut attributes: Vec<Attribute> = Vec::new();
        attributes.push(text_attr("action", "send_payment"));
        attributes.push(
            Attribute { key: String::from_str("sender"), value: AttrValue::Text(sender.clone()) },
        );
        attributes.push(
            Attribute {
                key: String::from_str("recipient"),
                value: AttrValue::Text(recipient.clone()),
            },
        );
        attributes.push(
            Attribute { key: String::from_str("amount"), value: AttrValue::Coins(coins) },
        );
        let payment = Payment { to_address: recipient, coins: amount };
        Ok(Outcome { attributes, payment: Some(payment) })
    }

    /// Dispatches one decoded mutating operation for the given caller.
    pub fn execute(&mut self, sender: &String, msg: ExecuteMsg) -> (r: Result<
        Outcome,
        ContractError,
    >)
        requires
            old(self).wf(),
            execute_pre(old(self)@, sender@, msg),
        ensures
            final(self).wf(),
            execute_post(old(self)@, final(self)@, sender@, msg, r),
    {
        match msg {
            ExecuteMsg::Mint { amount } => self.execute_mint(sender, amount),
            ExecuteMsg::Burn { amount } => self.execute_burn(sender, amount),
            ExecuteMsg::UpdatePegPrice { peg_price } => self.execute_update_peg_price(
                sender,
                peg_price,
            ),
            ExecuteMsg::Deposit { amount } => self.execute_deposit(amount),
            ExecuteMsg::Withdraw { amount } => self.execute_withdraw(amount),
            ExecuteMsg::UpdateWithdrawalLimit { limit } => self.execute_update_withdrawal_limit(
                sender,
                limit,
            ),
            ExecuteMsg::CorrectTotalSupply { desired_total_supply } => self
                .execute_correct_total_supply(sender, desired_total_supply),
            ExecuteMsg::CreateNewExchange { name, withdrawal_limit, initial_funds } => self
                .execute_create_new_exchange(sender, name, initial_funds, withdrawal_limit),
            ExecuteMsg::BuyFromExchange { exchange_address, amount } => self
                .execute_buy_from_exchange(sender, &exchange_address, amount),
            ExecuteMsg::SellToExchange { exchange_address, amount } => self
                .execute_sell_to_exchange(sender, &exchange_address, amount),
            ExecuteMsg::TransferFunds { recipient, amount } => self.execute_transfer_funds(
                sender,
                recipient,
                amount,
            ),
        }
    }
}

// ---------------------------------------------------------------------------
// Query service
// ---------------------------------------------------------------------------

/// What `query` answers, by query kind.
pub open spec fn query_post(
    l: LedgerV,
    msg: QueryMsg,
    r: Result<QueryAnswer, ContractError>,
) -> bool {
    match msg {
        QueryMsg::GetSupply {} => r == Result::<QueryAnswer, ContractError>::Ok(
            QueryAnswer::Supply(l.total_supply),
        ),
        QueryMsg::GetPegPrice {} => r == Result::<QueryAnswer, ContractError>::Ok(
            QueryAnswer::PegPrice(l.peg_price),
        ),
        QueryMsg::GetWithdrawalLimit {} => r == Result::<QueryAnswer, ContractError>::Ok(
            QueryAnswer::WithdrawalLimit(l.withdrawal_limit),
        ),
        QueryMsg::GetExchange { owner } => match r {
            Ok(a) => match a {
                QueryAnswer::ExchangeInfo(e) => l.exchanges.contains_key(owner@) && e@
                    == l.exchanges[owner@],
                _ => false,
            },
            Err(e) => !l.exchanges.contains_key(owner@) && e
                == (ContractError::ExchangeNotFound {}),
        },
        QueryMsg::GetUserBalance { address } => r == Result::<QueryAnswer, ContractError>::Ok(
            QueryAnswer::UserBalance(user_balance_of(l, address@)),
        ),
        QueryMsg::GetExchangeBalance { address } => match r {
            Ok(a) => match a {
                QueryAnswer::ExchangeBalance(b) => l.exchanges.contains_key(address@) && b
                    == l.exchanges[address@].balance,
                _ => false,
            },
            Err(e) => !l.exchanges.contains_key(address@) && e
                == (ContractError::ExchangeNotFound {}),
        },
        QueryMsg::GetAllExchanges {} => match r {
            Ok(a) => match a {
                QueryAnswer::AllExchanges(v) => all_exchanges_of(l, v@),
                _ => false,
            },
            Err(_) => false,
        },
    }
}

/// The sequence `v` enumerates exactly the exchanges of `l`, in strictly
/// increasing order of their owning address.
pub open spec fn all_exchanges_of(l: LedgerV, v: Seq<Exchange>) -> bool {
    &&& forall|i: int|
        0 <= i < v.len() ==> l.exchanges.contains_key(#[trigger] v[i]@.owner)
            && l.exchanges[v[i]@.owner] == v[i]@
    &&& forall|i: int, j: int| 0 <= i < j < v.len() ==> lex_lt(v[i]@.owner, v[j]@.owner)
    &&& forall|k: Seq<char>|
        #[trigger] l.exchanges.contains_key(k) ==> exists|i: int|
            0 <= i < v.len() && v[i]@.owner == k
}

impl Ledger {
    /// The exchange created by `owner`, or `ExchangeNotFound`.
    pub fn query_get_exchange(&self, owner: &String) -> (r: Result<Exchange, ContractError>)
        requires
            self.wf(),
        ensures
            match r {
                Ok(e) => self@.exchanges.contains_key(owner@) && e@ == self@.exchanges[owner@],
                Err(e) => !self@.exchanges.contains_key(owner@) && e == (
                ContractError::ExchangeNotFound {}),
            },
    {
        match self.exchanges.get(owner) {
            Some(e) => Ok(e.duplicate()),
            None => Err(ContractError::ExchangeNotFound {}),
        }
    }

    /// The user balance of `address`; zero when no entry exists.
    pub fn query_get_user_balance(&self, address: &String) -> (r: u128)
        requires
            self.wf(),
        ensures
            r == user_balance_of(self@, address@),
    {
        match self.balances.get(address) {
            Some(b) => *b,
            None => 0,
        }
    }

    /// The balance of the exchange created by `address`, or
    /// `ExchangeNotFound`.
    pub fn query_get_exchange_balance(&self, address: &String) -> (r: Result<u128, ContractError>)
        requires
            self.wf(),
        ensures
            match r {
                Ok(b) => self@.exchanges.contains_key(address@) && b
                    == self@.exchanges[address@].balance,
                Err(e) => !self@.exchanges.contains_key(address@) && e == (
                ContractError::ExchangeNotFound {}),
            },
    {
        match self.exchanges.get(address) {
            Some(e) => Ok(e.balance),
            None => Err(ContractError::ExchangeNotFound {}),
        }
    }

    /// Every exchange of the ledger, ordered by its owning address.
    pub fn query_get_all_exchanges(&self) -> (r: Vec<Exchange>)
        requires
            self.wf(),
        ensures
            all_exchanges_of(self@, r@),
    {
        let n = self.exchanges.len();
        let mut r: Vec<Exchange> = Vec::new();
        let mut i: usize = 0;
        while i < n
            invariant
                i <= n,
                n == self.exchanges.spec_len(),
                self.wf(),
                r@.len() == i,
                forall|j: int| 0 <= j < i ==> #[trigger] r@[j]@ == self.exchanges.val_at(j),
            decreases n - i,
        {
            let e = self.exchanges.val_ref(i);
            r.push(e.duplicate());
            i = i + 1;
        }
        proof {
            self.exchanges.lemma_enumeration();
            assert forall|j: int| 0 <= j < r@.len() implies #[trigger] r@[j]@.owner
                == self.exchanges.key_at(j) by {
                assert(self@.exchanges.contains_key(self.exchanges.key_at(j)));
                assert(self@.exchanges[self.exchanges.key_at(j)] == self.exchanges.val_at(j));
            }
            assert forall|k: Seq<char>| #[trigger] self@.exchanges.contains_key(k)
                implies exists|i2: int| 0 <= i2 < r@.len() && r@[i2]@.owner == k by {
                let i2 = choose|i2: int|
                    0 <= i2 < self.exchanges.spec_len() && #[trigger] self.exchanges.key_at(i2)
                        == k;
                assert(r@[i2]@.owner == k);
            }
        }
        r
    }

    /// Dispatches one decoded read-only query.
    pub fn query(&self, msg: QueryMsg) -> (r: Result<QueryAnswer, ContractError>)
        requires
            self.wf(),
        ensures
            query_post(self@, msg, r),
    {
        match msg {
            QueryMsg::GetSupply {} => Ok(QueryAnswer::Supply(self.total_supply)),
            QueryMsg::GetPegPrice {} => Ok(QueryAnswer::PegPrice(self.peg_price)),
            QueryMsg::GetWithdrawalLimit {} => Ok(
                QueryAnswer::WithdrawalLimit(self.withdrawal_limit),
            ),
            QueryMsg::GetExchange { owner } => match self.query_get_exchange(&owner) {
                Ok(e) => Ok(QueryAnswer::ExchangeInfo(e)),
                Err(e) => Err(e),
            },
            QueryMsg::GetUserBalance { address } => Ok(
                QueryAnswer::UserBalance(self.query_get_user_balance(&address)),
            ),
            QueryMsg::GetExchangeBalance { address } => match self.query_get_exchange_balance(
                &address,
            ) {
                Ok(b) => Ok(QueryAnswer::ExchangeBalance(b)),
                Err(e) => Err(e),
            },
            QueryMsg::GetAllExchanges {} => Ok(
                QueryAnswer::AllExchanges(self.query_get_all_exchanges()),
            ),
        }
    }
}

/// An exact copy of a coin list.
pub fn clone_coins(v: &Vec<Coin>) -> (r: Vec<Coin>)
    ensures
        r@ == v@,
{
    let mut r: Vec<Coin> = Vec::new();
    let mut i: usize = 0;
    while i < v.len()
        invariant
            i <= v.len(),
            r@.len() == i,
            forall|j: int| 0 <= j < i ==> r@[j] == v@[j],
        decreases v.len() - i,
    {
        let c = &v[i];
        r.push(Coin { denom: c.denom.clone(), amount: c.amount });
        i = i + 1;
    }
    proof {
        assert(r@ =~= v@);
    }
    r
}

} // verus!
