use peg_ledger::error::ContractError;
use peg_ledger::helpers::validate_positive_amount;
use peg_ledger::msg::{Coin, ExecuteMsg, InstantiateMsg, QueryAnswer, QueryMsg};
use peg_ledger::response::AttrValue;
use peg_ledger::state::Ledger;

fn fresh(owner: &str, initial_supply: u128, peg_price: u128) -> Ledger {
    let sender = String::from(owner);
    let (ledger, _outcome) = Ledger::instantiate(&sender, InstantiateMsg { initial_supply, peg_price });
    ledger
}

fn create_exchange(ledger: &mut Ledger, owner: &str, name: &str, funds: u128) {
    let sender = String::from(owner);
    ledger
        .execute(
            &sender,
            ExecuteMsg::CreateNewExchange {
                name: String::from(name),
                withdrawal_limit: 0,
                initial_funds: funds,
            },
        )
        .unwrap();
}

#[test]
fn scalar_queries_report_the_state() {
    let ledger = fresh("owner", 77, 88);
    assert_eq!(ledger.query(QueryMsg::GetSupply {}), Ok(QueryAnswer::Supply(77)));
    assert_eq!(ledger.query(QueryMsg::GetPegPrice {}), Ok(QueryAnswer::PegPrice(88)));
    assert_eq!(
        ledger.query(QueryMsg::GetWithdrawalLimit {}),
        Ok(QueryAnswer::WithdrawalLimit(0))
    );
}

#[test]
fn user_balance_defaults_to_zero() {
    let ledger = fresh("owner", 77, 88);
    assert_eq!(
        ledger.query(QueryMsg::GetUserBalance { address: String::from("nobody") }),
        Ok(QueryAnswer::UserBalance(0))
    );
}

#[test]
fn exchange_queries_fail_when_absent() {
    let ledger = fresh("owner", 77, 88);
    assert_eq!(
        ledger.query(QueryMsg::GetExchange { owner: String::from("ghost") }),
        Err(ContractError::ExchangeNotFound {})
    );
    assert_eq!(
        ledger.query(QueryMsg::GetExchangeBalance { address: String::from("ghost") }),
        Err(ContractError::ExchangeNotFound {})
    );
}

#[test]
fn all_exchanges_come_ordered_by_key() {
    let mut ledger = fresh("owner", 1_000, 10);
    create_exchange(&mut ledger, "bob", "pool b", 20);
    create_exchange(&mut ledger, "alice", "pool a", 10);
    create_exchange(&mut ledger, "carol", "pool c", 30);

    match ledger.query(QueryMsg::GetAllExchanges {}) {
        Ok(QueryAnswer::AllExchanges(v)) => {
            assert_eq!(v.len(), 3);
            assert_eq!(v[0].owner, String::from("alice"));
            assert_eq!(v[0].name, String::from("pool a"));
            assert_eq!(v[0].balance, 10);
            assert_eq!(v[1].owner, String::from("bob"));
            assert_eq!(v[1].balance, 20);
            assert_eq!(v[2].owner, String::from("carol"));
            assert_eq!(v[2].balance, 30);
        },
        other => panic!("unexpected answer: {:?}", other),
    }
}

#[test]
fn transfer_funds_requests_one_payment() {
    let mut ledger = fresh("owner", 1_000, 10);
    let sender = String::from("payer");

    let coins = vec![
        Coin { denom: String::from("uluna"), amount: 12 },
        Coin { denom: String::from("uusd"), amount: 34 },
    ];
    let res = ledger
        .execute(
            &sender,
            ExecuteMsg::TransferFunds { recipient: String::from("payee"), amount: coins.clone() },
        )
        .unwrap();

    let payment = res.payment.expect("a payment instruction");
    assert_eq!(payment.to_address, String::from("payee"));
    assert_eq!(payment.coins, coins);

    assert_eq!(res.attributes.len(), 4);
    assert_eq!(res.attributes[0].key, String::from("action"));
    assert_eq!(res.attributes[0].value, AttrValue::Text(String::from("send_payment")));
    assert_eq!(res.attributes[1].key, String::from("sender"));
    assert_eq!(res.attributes[1].value, AttrValue::Text(String::from("payer")));
    assert_eq!(res.attributes[2].key, String::from("recipient"));
    assert_eq!(res.attributes[2].value, AttrValue::Text(String::from("payee")));
    assert_eq!(res.attributes[3].key, String::from("amount"));
    assert_eq!(res.attributes[3].value, AttrValue::Coins(coins));

    // The ledger itself is untouched.
    assert_eq!(ledger.query(QueryMsg::GetSupply {}), Ok(QueryAnswer::Supply(1_000)));
}

#[test]
fn transfer_funds_rejects_an_empty_coin_list() {
    let mut ledger = fresh("owner", 1_000, 10);
    let sender = String::from("payer");

    let err = ledger
        .execute(
            &sender,
            ExecuteMsg::TransferFunds { recipient: String::from("payee"), amount: Vec::new() },
        )
        .unwrap_err();
    assert_eq!(err, ContractError::InvalidAmount {});
}

#[test]
fn mint_outcome_reports_action_and_amount() {
    let mut ledger = fresh("owner", 10, 10);
    let owner = String::from("owner");

    let res = ledger.execute(&owner, ExecuteMsg::Mint { amount: 25 }).unwrap();
    assert!(res.payment.is_none());
    assert_eq!(res.attributes.len(), 2);
    assert_eq!(res.attributes[0].key, String::from("action"));
    assert_eq!(res.attributes[0].value, AttrValue::Text(String::from("mint")));
    assert_eq!(res.attributes[1].key, String::from("amount"));
    assert_eq!(res.attributes[1].value, AttrValue::Amount(25));
}

#[test]
fn positive_amount_validation() {
    assert_eq!(validate_positive_amount(0), Err(ContractError::InvalidAmount {}));
    assert_eq!(validate_positive_amount(1), Ok(()));
    assert_eq!(validate_positive_amount(u128::MAX), Ok(()));
}

#[test]
fn error_messages_are_descriptive() {
    assert_eq!(ContractError::Unauthorized {}.message(), "Unauthorized");
    assert_eq!(ContractError::InsufficientFunds {}.message(), "Insufficient Funds");
    assert_eq!(ContractError::ExchangeNotFound {}.message(), "Exchange Not Found");
    assert_eq!(ContractError::InvalidAmount {}.message(), "Amount to send cannot be empty");
    assert_eq!(ContractError::WithdrawalLimitExceeded {}.message(), "Withdrawal Limit Exceeded");
    assert_eq!(
        ContractError::ExchangeAlreadyExists {}.message(),
        "Exchange already exists for this owner."
    );
}
