use pool_token::settlement::{EXCHANGE_NEAR_GAS, EXCHANGE_TOKENS_GAS, TIME_THRESHOLD};
use pool_token::{did_promise_succeded, Contract, ExchangeError, LedgerView, PendingExchange, PoolInfo, PromiseOutcome};

const NEXT_RAFFLE: u64 = 1_000_000_000_000_000;
const NOW: u64 = 1_000;

fn cached(reserve: u128) -> Contract {
    Contract { pool_party_reserve: reserve, pool_party_next_raffle: NEXT_RAFFLE }
}

fn info(reserve: u128, next: u64) -> PoolInfo {
    PoolInfo { total_staked: 0, reserve, prize: 0, next_prize_tmstmp: next, withdraw_ready: true }
}

fn ok_results() -> Vec<PromiseOutcome> {
    vec![PromiseOutcome::Successful(vec![])]
}

#[test]
fn new_contract_is_empty() {
    let c = Contract::new();
    assert_eq!(c.pool_party_reserve, 0);
    assert_eq!(c.pool_party_next_raffle, 0);
}

#[test]
fn promise_success_needs_one_successful_result() {
    assert!(did_promise_succeded(&ok_results()));
    assert!(!did_promise_succeded(&vec![]));
    assert!(!did_promise_succeded(&vec![PromiseOutcome::Failed]));
    assert!(!did_promise_succeded(&vec![PromiseOutcome::NotReady]));
    assert!(!did_promise_succeded(&vec![PromiseOutcome::Successful(vec![]), PromiseOutcome::Successful(vec![])]));
}

#[test]
fn refresh_takes_later_raffle() {
    let mut c = Contract::new();
    assert!(c.cache_pool_party_reserve_callback(Some(info(500, 10))));
    assert_eq!(c, Contract { pool_party_reserve: 500, pool_party_next_raffle: 10 });
}

#[test]
fn refresh_failure_keeps_cache() {
    let mut c = cached(7);
    assert!(!c.cache_pool_party_reserve_callback(None));
    assert_eq!(c, cached(7));
}

#[test]
fn refresh_out_of_order_keeps_later() {
    let mut c = Contract::new();
    assert!(c.cache_pool_party_reserve_callback(Some(info(200, 20))));
    assert!(c.cache_pool_party_reserve_callback(Some(info(100, 10))));
    assert_eq!(c, Contract { pool_party_reserve: 200, pool_party_next_raffle: 20 });
    assert!(c.cache_pool_party_reserve_callback(Some(info(300, 20))));
    assert_eq!(c.pool_party_reserve, 200);
}

#[test]
fn stale_cache_refuses_exchanges() {
    let mut c = cached(1_000_000);
    let mut ledger = LedgerView { user_balance: 10, contract_balance: 1_000_000, total_supply: 10_000_000 };
    let now = NEXT_RAFFLE - TIME_THRESHOLD;
    assert_eq!(c.exchange_tokens_for_tickets(&mut ledger, 5, EXCHANGE_TOKENS_GAS, now), Err(ExchangeError::StaleCache));
    assert_eq!(c.exchange_near_for_tokens(&ledger, 5, EXCHANGE_NEAR_GAS, now), Err(ExchangeError::StaleCache));
    assert_eq!(c.check_not_close_to_raffle(now), Err(ExchangeError::StaleCache));
    assert_eq!(c.check_not_close_to_raffle(now - 1), Ok(()));
    assert_eq!(Contract::new().check_not_close_to_raffle(0), Err(ExchangeError::StaleCache));
    assert_eq!(c, cached(1_000_000));
}

#[test]
fn tokens_for_tickets_moves_balances() {
    let mut c = cached(1_000_000);
    let mut ledger = LedgerView { user_balance: 900_000, contract_balance: 1_000_000, total_supply: 10_000_000 };
    let p = c.exchange_tokens_for_tickets(&mut ledger, 900_000, EXCHANGE_TOKENS_GAS, NOW).unwrap();
    assert_eq!(p, PendingExchange { tokens: 900_000, tickets: 100_000 });
    assert_eq!(c.pool_party_reserve, 900_000);
    assert_eq!(ledger, LedgerView { user_balance: 0, contract_balance: 1_900_000, total_supply: 10_000_000 });
    assert_eq!(c.exchange_tokens_for_tickets_callback(&mut ledger, p.tokens, p.tickets, &ok_results()), Ok(true));
    assert_eq!(c.pool_party_reserve, 900_000);
    assert_eq!(ledger.contract_balance, 1_900_000);
}

#[test]
fn failed_grant_restores_everything() {
    let before_c = cached(1_000_000);
    let before_l = LedgerView { user_balance: 500_000, contract_balance: 1_000_000, total_supply: 10_000_000 };
    let mut c = before_c;
    let mut ledger = before_l;
    let p = c.exchange_tokens_for_tickets(&mut ledger, 450_000, EXCHANGE_TOKENS_GAS, NOW).unwrap();
    assert_eq!(p.tickets, 50_000);
    let r = c.exchange_tokens_for_tickets_callback(&mut ledger, p.tokens, p.tickets, &vec![PromiseOutcome::Failed]);
    assert_eq!(r, Ok(false));
    assert_eq!(c, before_c);
    assert_eq!(ledger, before_l);
}

#[test]
fn tokens_for_tickets_errors() {
    let mut c = cached(1_000);
    let mut ledger = LedgerView { user_balance: 10, contract_balance: 0, total_supply: 100 };
    assert_eq!(c.exchange_tokens_for_tickets(&mut ledger, 5, EXCHANGE_TOKENS_GAS - 1, NOW), Err(ExchangeError::InsufficientGas));
    assert_eq!(c.exchange_tokens_for_tickets(&mut ledger, 0, EXCHANGE_TOKENS_GAS, NOW), Err(ExchangeError::ZeroAmount));
    assert_eq!(c.exchange_tokens_for_tickets(&mut ledger, 11, EXCHANGE_TOKENS_GAS, NOW), Err(ExchangeError::InsufficientBalance));
    assert_eq!(c, cached(1_000));
    assert_eq!(ledger, LedgerView { user_balance: 10, contract_balance: 0, total_supply: 100 });
}

#[test]
fn rollback_errors() {
    let mut c = cached(u128::MAX - 1);
    let mut ledger = LedgerView { user_balance: 0, contract_balance: 5, total_supply: 100 };
    let failed = vec![PromiseOutcome::Failed];
    assert_eq!(c.exchange_tokens_for_tickets_callback(&mut ledger, 0, 1, &failed), Err(ExchangeError::ZeroAmount));
    assert_eq!(c.exchange_tokens_for_tickets_callback(&mut ledger, 6, 1, &failed), Err(ExchangeError::InsufficientInventory));
    assert_eq!(c.exchange_tokens_for_tickets_callback(&mut ledger, 5, 2, &failed), Err(ExchangeError::ReserveOverflow));
    assert_eq!(c, cached(u128::MAX - 1));
    assert_eq!(ledger.contract_balance, 5);
}

#[test]
fn near_for_tokens_scenario_and_inventory() {
    let c = cached(500);
    let enough = LedgerView { user_balance: 0, contract_balance: 100, total_supply: 1100 };
    assert_eq!(c.exchange_near_for_tokens(&enough, 50, EXCHANGE_NEAR_GAS, NOW), Ok(100));
    let short = LedgerView { user_balance: 0, contract_balance: 99, total_supply: 1099 };
    assert_eq!(c.exchange_near_for_tokens(&short, 50, EXCHANGE_NEAR_GAS, NOW), Err(ExchangeError::InsufficientInventory));
}

#[test]
fn near_for_tokens_errors() {
    let ledger = LedgerView { user_balance: 0, contract_balance: 100, total_supply: 1100 };
    let c = cached(500);
    assert_eq!(c.exchange_near_for_tokens(&ledger, 50, EXCHANGE_NEAR_GAS - 1, NOW), Err(ExchangeError::InsufficientGas));
    assert_eq!(c.exchange_near_for_tokens(&ledger, 0, EXCHANGE_NEAR_GAS, NOW), Err(ExchangeError::ZeroAmount));
    assert_eq!(cached(5000).exchange_near_for_tokens(&ledger, 1, EXCHANGE_NEAR_GAS, NOW), Err(ExchangeError::ZeroAmount));
    assert_eq!(cached(0).exchange_near_for_tokens(&ledger, 50, EXCHANGE_NEAR_GAS, NOW), Err(ExchangeError::NoReserve));
    assert_eq!(cached(1).exchange_near_for_tokens(&ledger, u128::MAX, EXCHANGE_NEAR_GAS, NOW), Err(ExchangeError::InsufficientInventory));
}

#[test]
fn near_for_tokens_callback_credits_or_fails() {
    let mut c = cached(500);
    let mut ledger = LedgerView { user_balance: 0, contract_balance: 100, total_supply: 1100 };
    assert_eq!(c.exchange_near_for_tokens_callback(&mut ledger, 100, 50, &vec![PromiseOutcome::Failed]), Err(ExchangeError::ExternalCallFailed));
    assert_eq!(c, cached(500));
    assert_eq!(c.exchange_near_for_tokens_callback(&mut ledger, 100, 50, &ok_results()), Ok(()));
    assert_eq!(c, cached(550));
    assert_eq!(ledger, LedgerView { user_balance: 100, contract_balance: 0, total_supply: 1100 });
}
