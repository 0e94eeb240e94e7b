use vstd::prelude::*;

verus! {

/// The typed failures of the accounting engine.
///
/// Every operation either succeeds or returns one of these; an error always
/// leaves the ledger exactly as it was before the call.
#[derive(Clone, Copy, Debug, PartialEq, Eq, Structural)]
pub enum ContractError {
    /// An owner-only operation was invoked by a caller other than the owner.
    Unauthorized {},
    /// The requested amount exceeds the available balance or supply.
    InsufficientFunds {},
    /// A reference to an exchange that does not exist.
    ExchangeNotFound {},
    /// A zero amount, or an empty list of coins, where a positive one is required.
    InvalidAmount {},
    /// A withdrawal amount above the configured per-call withdrawal limit.
    WithdrawalLimitExceeded {},
    /// An exchange already exists for the creating address.
    ExchangeAlreadyExists {},
}

impl ContractError {
    /// A human-readable description of the error.
    pub fn message(&self) -> (r: &'static str)
        ensures
            *self == (ContractError::Unauthorized {}) ==> r@ == "Unauthorized"@,
            *self == (ContractError::InsufficientFunds {}) ==> r@ == "Insufficient Funds"@,
            *self == (ContractError::ExchangeNotFound {}) ==> r@ == "Exchange Not Found"@,
            *self == (ContractError::InvalidAmount {}) ==> r@ == "Amount to send cannot be empty"@,
            *self == (ContractError::WithdrawalLimitExceeded {}) ==> r@
                == "Withdrawal Limit Exceeded"@,
            *self == (ContractError::ExchangeAlreadyExists {}) ==> r@
                == "Exchange already exists for this owner."@,
    {
        match self {
            ContractError::Unauthorized {} => "Unauthorized",
            ContractError::InsufficientFunds {} => "Insufficient Funds",
            ContractError::ExchangeNotFound {} => "Exchange Not Found",
            ContractError::InvalidAmount {} => "Amount to send cannot be empty",
            ContractError::WithdrawalLimitExceeded {} => "Withdrawal Limit Exceeded",
            ContractError::ExchangeAlreadyExists {} => "Exchange already exists for this owner.",
        }
    }
}

} // verus!
