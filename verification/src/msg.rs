use vstd::prelude::*;

verus! {

/// A quantity of one token denomination, as carried by an outbound payment
/// instruction.
#[derive(Clone, Debug, PartialEq)]
pub struct Coin {
    pub denom: String,
    pub amount: u128,
}

/// The parameters of ledger initialization.
#[derive(Clone, Copy, Debug, PartialEq, Eq, Structural)]
pub struct InstantiateMsg {
    pub initial_supply: u128,
    pub peg_price: u128,
}

/// A decoded mutating operation, as handed to the engine by the host
/// together with the caller's identity.
#[derive(Clone, Debug, PartialEq)]
pub enum ExecuteMsg {
    Mint { amount: u128 },
    Burn { amount: u128 },
    UpdatePegPrice { peg_price: u128 },
    Deposit { amount: u128 },
    Withdraw { amount: u128 },
    UpdateWithdrawalLimit { limit: u128 },
    CorrectTotalSupply { desired_total_supply: u128 },
    CreateNewExchange { name: String, withdrawal_limit: u128, initial_funds: u128 },
    BuyFromExchange { exchange_address: String, amount: u128 },
    SellToExchange { exchange_address: String, amount: u128 },
    TransferFunds { recipient: String, amount: Vec<Coin> },
}

/// A decoded read-only query.
#[derive(Clone, Debug, PartialEq)]
pub enum QueryMsg {
    GetSupply {},
    GetPegPrice {},
    GetWithdrawalLimit {},
    GetExchange { owner: String },
    GetUserBalance { address: String },
    GetExchangeBalance { address: String },
    GetAllExchanges {},
}

/// A user's wallet and balance.
#[derive(Clone, Debug, PartialEq)]
pub struct User {
    pub wallet: String,
    pub balance: u128,
}

/// An exchange sub-ledger: a named pool of funds owned by the address that
/// created it.
#[derive(Clone, Debug, PartialEq)]
pub struct Exchange {
    pub name: String,
    pub balance: u128,
    /// A per-exchange ceiling declared at creation.  It is recorded and
    /// reported but currently inert: the buy and sell handlers do not
    /// enforce it.
    pub withdrawal_limit: u128,
    pub owner: String,
}

/// The mathematical model of an `Exchange`.
#[verifier::ext_equal]
pub struct ExchangeV {
    pub name: Seq<char>,
    pub balance: u128,
    pub withdrawal_limit: u128,
    pub owner: Seq<char>,
}

impl View for Exchange {
    type V = ExchangeV;

    open spec fn view(&self) -> ExchangeV {
        ExchangeV {
            name: self.name@,
            balance: self.balance,
            withdrawal_limit: self.withdrawal_limit,
            owner: self.owner@,
        }
    }
}

impl Exchange {
    /// An exact copy of the exchange record.
    pub fn duplicate(&self) -> (r: Exchange)
        ensures
            r == *self,
    {
        Exchange {
            name: self.name.clone(),
            balance: self.balance,
            withdrawal_limit: self.withdrawal_limit,
            owner: self.owner.clone(),
        }
    }
}

/// The typed result of a query, which the host serializes for the caller.
#[derive(Clone, Debug, PartialEq)]
pub enum QueryAnswer {
    Supply(u128),
    PegPrice(u128),
    WithdrawalLimit(u128),
    ExchangeInfo(Exchange),
    UserBalance(u128),
    ExchangeBalance(u128),
    AllExchanges(Vec<Exchange>),
}

} // verus!
