use peg_ledger::error::ContractError;
use peg_ledger::msg::{ExecuteMsg, InstantiateMsg, QueryAnswer, QueryMsg};
use peg_ledger::state::Ledger;

fn fresh(owner: &str, initial_supply: u128, peg_price: u128) -> Ledger {
    let sender = String::from(owner);
    let (ledger, _outcome) = Ledger::instantiate(&sender, InstantiateMsg { initial_supply, peg_price });
    ledger
}

fn supply_of(ledger: &Ledger) -> u128 {
    match ledger.query(QueryMsg::GetSupply {}) {
        Ok(QueryAnswer::Supply(s)) => s,
        other => panic!("unexpected answer: {:?}", other),
    }
}

#[test]
fn test_instantiate() {
    let sender = String::from("creator");
    let msg = InstantiateMsg { initial_supply: 1_000_000, peg_price: 1_000 };
    let (ledger, res) = Ledger::instantiate(&sender, msg);

    assert!(res.payment.is_none());
    assert_eq!(ledger.owner, String::from("creator"));
    assert_eq!(ledger.total_supply, 1_000_000);
    assert_eq!(ledger.peg_price, 1_000);
}

#[test]
fn test_withdrawal_within_limit() {
    let mut ledger = fresh("creator", 1_000_000, 1_000);
    let creator = String::from("creator");

    // Update withdrawal limit to 500_000
    ledger
        .execute(&creator, ExecuteMsg::UpdateWithdrawalLimit { limit: 500_000 })
        .unwrap();

    // Withdraw 400_000, within limit
    let res = ledger
        .execute(&creator, ExecuteMsg::Withdraw { amount: 400_000 })
        .unwrap();

    assert!(res.payment.is_none());
    assert_eq!(ledger.total_supply, 600_000);
}

#[test]
fn test_withdrawal_exceeding_limit() {
    let mut ledger = fresh("creator", 1_000_000, 1_000);
    let creator = String::from("creator");

    // Update withdrawal limit to 300_000
    ledger
        .execute(&creator, ExecuteMsg::UpdateWithdrawalLimit { limit: 300_000 })
        .unwrap();

    // Attempt to withdraw 400_000, exceeding limit
    let err = ledger
        .execute(&creator, ExecuteMsg::Withdraw { amount: 400_000 })
        .unwrap_err();

    assert_eq!(err, ContractError::WithdrawalLimitExceeded {});
    assert_eq!(ledger.total_supply, 1_000_000); // Supply remains unchanged
}

#[test]
fn mint_then_burn_restores_supply() {
    let mut ledger = fresh("owner", 5_000, 10);
    let owner = String::from("owner");

    ledger.execute(&owner, ExecuteMsg::Mint { amount: 1_234 }).unwrap();
    assert_eq!(supply_of(&ledger), 6_234);
    ledger.execute(&owner, ExecuteMsg::Burn { amount: 1_234 }).unwrap();
    assert_eq!(supply_of(&ledger), 5_000);
}

#[test]
fn burn_above_supply_fails() {
    let mut ledger = fresh("owner", 100, 10);
    let owner = String::from("owner");

    let err = ledger.execute(&owner, ExecuteMsg::Burn { amount: 101 }).unwrap_err();
    assert_eq!(err, ContractError::InsufficientFunds {});
    assert_eq!(supply_of(&ledger), 100);
}

#[test]
fn withdraw_conditions_are_exact() {
    let mut ledger = fresh("owner", 300, 10);
    let owner = String::from("owner");
    let anyone = String::from("passerby");

    // Withdrawals start disabled: the limit is zero.
    let err = ledger.execute(&anyone, ExecuteMsg::Withdraw { amount: 1 }).unwrap_err();
    assert_eq!(err, ContractError::WithdrawalLimitExceeded {});

    ledger.execute(&owner, ExecuteMsg::UpdateWithdrawalLimit { limit: 250 }).unwrap();

    // A zero amount is rejected before anything else is looked at.
    let err = ledger.execute(&anyone, ExecuteMsg::Withdraw { amount: 0 }).unwrap_err();
    assert_eq!(err, ContractError::InvalidAmount {});

    // Above the limit.
    let err = ledger.execute(&anyone, ExecuteMsg::Withdraw { amount: 251 }).unwrap_err();
    assert_eq!(err, ContractError::WithdrawalLimitExceeded {});
    assert_eq!(supply_of(&ledger), 300);

    // Within the limit but above the supply.
    ledger.execute(&anyone, ExecuteMsg::Withdraw { amount: 200 }).unwrap();
    assert_eq!(supply_of(&ledger), 100);
    let err = ledger.execute(&anyone, ExecuteMsg::Withdraw { amount: 101 }).unwrap_err();
    assert_eq!(err, ContractError::InsufficientFunds {});
    assert_eq!(supply_of(&ledger), 100);

    // Within both: succeeds, and any caller may withdraw.
    ledger.execute(&anyone, ExecuteMsg::Withdraw { amount: 100 }).unwrap();
    assert_eq!(supply_of(&ledger), 0);
}

#[test]
fn create_exchange_only_once_per_address() {
    let mut ledger = fresh("owner", 1_000, 10);
    let alice = String::from("alice");

    ledger
        .execute(
            &alice,
            ExecuteMsg::CreateNewExchange {
                name: String::from("first"),
                withdrawal_limit: 7,
                initial_funds: 500,
            },
        )
        .unwrap();

    let err = ledger
        .execute(
            &alice,
            ExecuteMsg::CreateNewExchange {
                name: String::from("second"),
                withdrawal_limit: 9,
                initial_funds: 600,
            },
        )
        .unwrap_err();
    assert_eq!(err, ContractError::ExchangeAlreadyExists {});

    // The first exchange is untouched.
    match ledger.query(QueryMsg::GetExchange { owner: String::from("alice") }) {
        Ok(QueryAnswer::ExchangeInfo(e)) => {
            assert_eq!(e.name, String::from("first"));
            assert_eq!(e.balance, 500);
            assert_eq!(e.withdrawal_limit, 7);
            assert_eq!(e.owner, String::from("alice"));
        },
        other => panic!("unexpected answer: {:?}", other),
    }
}

#[test]
fn buy_then_sell_restores_balances() {
    let mut ledger = fresh("owner", 1_000, 10);
    let alice = String::from("alice");
    let bob = String::from("bob");

    ledger
        .execute(
            &alice,
            ExecuteMsg::CreateNewExchange {
                name: String::from("pool"),
                withdrawal_limit: 0,
                initial_funds: 800,
            },
        )
        .unwrap();

    ledger
        .execute(
            &bob,
            ExecuteMsg::BuyFromExchange { exchange_address: String::from("alice"), amount: 300 },
        )
        .unwrap();
    match ledger.query(QueryMsg::GetExchangeBalance { address: String::from("alice") }) {
        Ok(QueryAnswer::ExchangeBalance(b)) => assert_eq!(b, 500),
        other => panic!("unexpected answer: {:?}", other),
    }
    match ledger.query(QueryMsg::GetUserBalance { address: String::from("bob") }) {
        Ok(QueryAnswer::UserBalance(b)) => assert_eq!(b, 300),
        other => panic!("unexpected answer: {:?}", other),
    }

    ledger
        .execute(
            &bob,
            ExecuteMsg::SellToExchange { exchange_address: String::from("alice"), amount: 300 },
        )
        .unwrap();
    match ledger.query(QueryMsg::GetExchangeBalance { address: String::from("alice") }) {
        Ok(QueryAnswer::ExchangeBalance(b)) => assert_eq!(b, 800),
        other => panic!("unexpected answer: {:?}", other),
    }
    match ledger.query(QueryMsg::GetUserBalance { address: String::from("bob") }) {
        Ok(QueryAnswer::UserBalance(b)) => assert_eq!(b, 0),
        other => panic!("unexpected answer: {:?}", other),
    }

    // The aggregate supply is never touched by buys and sells.
    assert_eq!(supply_of(&ledger), 1_000);
}

#[test]
fn buy_and_sell_error_cases() {
    let mut ledger = fresh("owner", 1_000, 10);
    let alice = String::from("alice");
    let bob = String::from("bob");

    // No exchange yet.
    let err = ledger
        .execute(
            &bob,
            ExecuteMsg::BuyFromExchange { exchange_address: String::from("alice"), amount: 10 },
        )
        .unwrap_err();
    assert_eq!(err, ContractError::ExchangeNotFound {});

    ledger
        .execute(
            &alice,
            ExecuteMsg::CreateNewExchange {
                name: String::from("pool"),
                withdrawal_limit: 0,
                initial_funds: 50,
            },
        )
        .unwrap();

    // Zero amounts.
    let err = ledger
        .execute(
            &bob,
            ExecuteMsg::BuyFromExchange { exchange_address: String::from("alice"), amount: 0 },
        )
        .unwrap_err();
    assert_eq!(err, ContractError::InvalidAmount {});
    let err = ledger
        .execute(
            &bob,
            ExecuteMsg::SellToExchange { exchange_address: String::from("alice"), amount: 0 },
        )
        .unwrap_err();
    assert_eq!(err, ContractError::InvalidAmount {});

    // Buying more than the exchange holds.
    let err = ledger
        .execute(
            &bob,
            ExecuteMsg::BuyFromExchange { exchange_address: String::from("alice"), amount: 51 },
        )
        .unwrap_err();
    assert_eq!(err, ContractError::InsufficientFunds {});

    // Selling more than the caller holds.
    let err = ledger
        .execute(
            &bob,
            ExecuteMsg::SellToExchange { exchange_address: String::from("alice"), amount: 1 },
        )
        .unwrap_err();
    assert_eq!(err, ContractError::InsufficientFunds {});

    // Selling into an absent exchange.
    ledger
        .execute(
            &bob,
            ExecuteMsg::BuyFromExchange { exchange_address: String::from("alice"), amount: 20 },
        )
        .unwrap();
    let err = ledger
        .execute(
            &bob,
            ExecuteMsg::SellToExchange { exchange_address: String::from("carol"), amount: 20 },
        )
        .unwrap_err();
    assert_eq!(err, ContractError::ExchangeNotFound {});
}

#[test]
fn owner_only_operations_reject_others() {
    let mut ledger = fresh("owner", 1_000, 10);
    let intruder = String::from("intruder");

    let attempts = vec![
        ExecuteMsg::Mint { amount: 5 },
        ExecuteMsg::Burn { amount: 5 },
        ExecuteMsg::UpdatePegPrice { peg_price: 77 },
        ExecuteMsg::UpdateWithdrawalLimit { limit: 88 },
        ExecuteMsg::CorrectTotalSupply { desired_total_supply: 99 },
    ];
    for msg in attempts {
        let err = ledger.execute(&intruder, msg).unwrap_err();
        assert_eq!(err, ContractError::Unauthorized {});
    }

    // Nothing changed.
    assert_eq!(supply_of(&ledger), 1_000);
    match ledger.query(QueryMsg::GetPegPrice {}) {
        Ok(QueryAnswer::PegPrice(p)) => assert_eq!(p, 10),
        other => panic!("unexpected answer: {:?}", other),
    }
    match ledger.query(QueryMsg::GetWithdrawalLimit {}) {
        Ok(QueryAnswer::WithdrawalLimit(w)) => assert_eq!(w, 0),
        other => panic!("unexpected answer: {:?}", other),
    }
}

#[test]
fn initialization_scenario_with_per_call_limit() {
    let creator = String::from("creator");
    let (mut ledger, _res) =
        Ledger::instantiate(&creator, InstantiateMsg { initial_supply: 1_000_000, peg_price: 1_000 });
    assert_eq!(ledger.owner, String::from("creator"));
    assert_eq!(supply_of(&ledger), 1_000_000);
    match ledger.query(QueryMsg::GetPegPrice {}) {
        Ok(QueryAnswer::PegPrice(p)) => assert_eq!(p, 1_000),
        other => panic!("unexpected answer: {:?}", other),
    }
    match ledger.query(QueryMsg::GetWithdrawalLimit {}) {
        Ok(QueryAnswer::WithdrawalLimit(w)) => assert_eq!(w, 0),
        other => panic!("unexpected answer: {:?}", other),
    }

    ledger
        .execute(&creator, ExecuteMsg::UpdateWithdrawalLimit { limit: 500_000 })
        .unwrap();
    match ledger.query(QueryMsg::GetWithdrawalLimit {}) {
        Ok(QueryAnswer::WithdrawalLimit(w)) => assert_eq!(w, 500_000),
        other => panic!("unexpected answer: {:?}", other),
    }

    // The limit applies per call, not cumulatively: a 200,000 withdrawal
    // followed by a 400,000 one both pass the 500,000 ceiling.
    let anyone = String::from("anyone");
    ledger.execute(&anyone, ExecuteMsg::Withdraw { amount: 200_000 }).unwrap();
    assert_eq!(supply_of(&ledger), 800_000);
    ledger.execute(&anyone, ExecuteMsg::Withdraw { amount: 400_000 }).unwrap();
    assert_eq!(supply_of(&ledger), 400_000);
}

#[test]
fn correct_total_supply_moves_both_ways() {
    let mut ledger = fresh("owner", 700, 10);
    let owner = String::from("owner");

    ledger
        .execute(&owner, ExecuteMsg::CorrectTotalSupply { desired_total_supply: 1_000 })
        .unwrap();
    assert_eq!(supply_of(&ledger), 1_000);

    ledger
        .execute(&owner, ExecuteMsg::CorrectTotalSupply { desired_total_supply: 3 })
        .unwrap();
    assert_eq!(supply_of(&ledger), 3);

    let err = ledger
        .execute(&owner, ExecuteMsg::CorrectTotalSupply { desired_total_supply: 0 })
        .unwrap_err();
    assert_eq!(err, ContractError::InvalidAmount {});
    assert_eq!(supply_of(&ledger), 3);
}

#[test]
fn deposit_is_open_to_anyone() {
    let mut ledger = fresh("owner", 10, 10);
    let anyone = String::from("guest");

    ledger.execute(&anyone, ExecuteMsg::Deposit { amount: 32 }).unwrap();
    assert_eq!(supply_of(&ledger), 42);

    let err = ledger.execute(&anyone, ExecuteMsg::Deposit { amount: 0 }).unwrap_err();
    assert_eq!(err, ContractError::InvalidAmount {});
    assert_eq!(supply_of(&ledger), 42);
}

#[test]
fn update_peg_price_validates_and_applies() {
    let mut ledger = fresh("owner", 10, 10);
    let owner = String::from("owner");

    let err = ledger.execute(&owner, ExecuteMsg::UpdatePegPrice { peg_price: 0 }).unwrap_err();
    assert_eq!(err, ContractError::InvalidAmount {});

    ledger.execute(&owner, ExecuteMsg::UpdatePegPrice { peg_price: 123 }).unwrap();
    match ledger.query(QueryMsg::GetPegPrice {}) {
        Ok(QueryAnswer::PegPrice(p)) => assert_eq!(p, 123),
        other => panic!("unexpected answer: {:?}", other),
    }
}
