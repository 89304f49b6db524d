//! The contract's cached view of the staking pool, and the two exchanges
//! that are priced against it.
//!
//! Each exchange is split at its external call: the entry point decides and
//! makes its optimistic changes, and the callback, once the call resolved,
//! either lets them stand or compensates them.

use crate::external::{did_promise_succeded, promise_succeeded, PoolInfo, PromiseOutcome};
use crate::ledger::LedgerView;
use crate::pricing::{lemma_tickets_monotonic, near_to_tokens, tickets_for, tokens_for, tokens_to_tickets};
use vstd::prelude::*;

verus! {

/// One unit of a trillion gas.
pub const TGAS: u64 = 1_000_000_000_000;

/// Exchanges stop this long (in nanoseconds, five minutes) before the pool's
/// next raffle, when the cached reserve may no longer hold.
pub const TIME_THRESHOLD: u64 = 300_000_000_000;

/// Tokens minted to the owner when the contract is created.
pub const INITIAL_SUPPLY: u128 = 10_000_000;

/// Gas that an exchange of tokens for tickets must be given.
pub const EXCHANGE_TOKENS_GAS: u64 = 120 * TGAS;

/// Gas that an exchange of native currency for tokens must be given.
pub const EXCHANGE_NEAR_GAS: u64 = 30 * TGAS;

/// Gas for the pool's `get_pool_info`, and for the callback that follows it.
pub const POOL_INFO_GAS: u64 = 20 * TGAS;
pub const POOL_INFO_CALLBACK_GAS: u64 = 5 * TGAS;

/// Gas for the pool's `give_from_reserve`, and for the callback that follows it.
pub const GIVE_FROM_RESERVE_GAS: u64 = 120 * TGAS;
pub const GIVE_FROM_RESERVE_CALLBACK_GAS: u64 = 50 * TGAS;

/// Gas for the pool's `deposit_and_stake`, and for the callback that follows it.
pub const DEPOSIT_AND_STAKE_GAS: u64 = 190 * TGAS;
pub const DEPOSIT_AND_STAKE_CALLBACK_GAS: u64 = 20 * TGAS;

/// Why an exchange does not go through.
#[derive(Clone, Copy, Debug, PartialEq, Eq)]
pub enum ExchangeError {
    /// The call was given less gas than the whole chain of calls needs.
    InsufficientGas,
    /// Nothing to exchange: a zero amount, or a payment too small to buy a token.
    ZeroAmount,
    /// The next raffle is too close for the cached reserve to be trusted.
    StaleCache,
    /// The user holds fewer tokens than the exchange takes.
    InsufficientBalance,
    /// The cached reserve is empty, so tokens have no price.
    NoReserve,
    /// The contract holds fewer tokens than the exchange hands out.
    InsufficientInventory,
    /// The staking pool did not accept the call.
    ExternalCallFailed,
    /// The cached reserve would exceed what a `u128` holds.
    ReserveOverflow,
}

/// What a pending exchange of tokens for tickets carries to its callback.
#[derive(Clone, Copy, Debug, PartialEq, Eq)]
pub struct PendingExchange {
    pub tokens: u128,
    pub tickets: u128,
}

/// The settlement state: the pool's reserve as last cached, and the time
/// (in nanoseconds) of the pool's next raffle.
#[derive(Clone, Copy, Debug, PartialEq, Eq)]
pub struct Contract {
    pub pool_party_reserve: u128,
    pub pool_party_next_raffle: u64,
}

impl Contract {
    /// The cached reserve may still be used at `now`.
    pub open spec fn fresh(self, now: u64) -> bool {
        now + TIME_THRESHOLD < self.pool_party_next_raffle
    }

    /// The cache after an answer of the pool: taken only when it announces
    /// a later raffle than the one cached.
    pub open spec fn after_refresh(self, info: PoolInfo) -> Contract {
        if info.next_prize_tmstmp > self.pool_party_next_raffle {
            Contract { pool_party_reserve: info.reserve, pool_party_next_raffle: info.next_prize_tmstmp }
        } else {
            self
        }
    }

    /// The cache with `amount` held back from the reserve.
    pub open spec fn hold(self, amount: int) -> Contract {
        Contract { pool_party_reserve: (self.pool_party_reserve - amount) as u128, ..self }
    }

    /// The cache with `amount` added to the reserve.
    pub open spec fn release(self, amount: int) -> Contract {
        Contract { pool_party_reserve: (self.pool_party_reserve + amount) as u128, ..self }
    }

    /// Why an exchange of `amount` tokens for tickets is refused, if it is.
    pub open spec fn tickets_error(self, ledger: LedgerView, amount: u128, gas: u64, now: u64) -> Option<ExchangeError> {
        if gas < EXCHANGE_TOKENS_GAS {
            Some(ExchangeError::InsufficientGas)
        } else if !self.fresh(now) {
            Some(ExchangeError::StaleCache)
        } else if amount == 0 {
            Some(ExchangeError::ZeroAmount)
        } else if amount > ledger.user_balance {
            Some(ExchangeError::InsufficientBalance)
        } else {
            None
        }
    }

    /// Why moving `tokens` to the user and `amount` into the reserve fails, if it does.
    pub open spec fn credit_error(self, ledger: LedgerView, tokens: u128, amount: u128) -> Option<ExchangeError> {
        if tokens == 0 {
            Some(ExchangeError::ZeroAmount)
        } else if tokens > ledger.contract_balance {
            Some(ExchangeError::InsufficientInventory)
        } else if self.pool_party_reserve + amount > u128::MAX {
            Some(ExchangeError::ReserveOverflow)
        } else {
            None
        }
    }

    /// Why an exchange of the payment `native` for tokens is refused, if it is.
    pub open spec fn tokens_error(self, ledger: LedgerView, native: u128, gas: u64, now: u64) -> Option<ExchangeError> {
        if gas < EXCHANGE_NEAR_GAS {
            Some(ExchangeError::InsufficientGas)
        } else if native == 0 {
            Some(ExchangeError::ZeroAmount)
        } else if !self.fresh(now) {
            Some(ExchangeError::StaleCache)
        } else if self.pool_party_reserve == 0 {
            Some(ExchangeError::NoReserve)
        } else if tokens_for(native as int, ledger.circulating(), self.pool_party_reserve as int)
            > ledger.contract_balance {
            Some(ExchangeError::InsufficientInventory)
        } else if tokens_for(native as int, ledger.circulating(), self.pool_party_reserve as int) == 0 {
            Some(ExchangeError::ZeroAmount)
        } else {
            None
        }
    }

    /// A contract with nothing cached yet.
    pub fn new() -> (r: Contract)
        ensures
            r.pool_party_reserve == 0,
            r.pool_party_next_raffle == 0,
    {
        Contract { pool_party_reserve: 0, pool_party_next_raffle: 0 }
    }

    /// Takes the pool's answer to a refresh: `None` where the call failed,
    /// which leaves the cache and returns `false`. An answer that announces
    /// no later raffle than the cached one is no news and changes nothing.
    pub fn cache_pool_party_reserve_callback(&mut self, response: Option<PoolInfo>) -> (r: bool)
        ensures
            r == response is Some,
            response is None ==> *final(self) == *old(self),
            response matches Some(info) ==> *final(self) == old(self).after_refresh(info),
            final(self).pool_party_next_raffle >= old(self).pool_party_next_raffle,
    {
        match response {
            None => false,
            Some(info) => {
                if info.next_prize_tmstmp > self.pool_party_next_raffle {
                    self.pool_party_reserve = info.reserve;
                    self.pool_party_next_raffle = info.next_prize_tmstmp;
                }
                true
            },
        }
    }

    /// `Ok` while the next raffle is more than the threshold away from `now`.
    pub fn check_not_close_to_raffle(&self, now: u64) -> (r: Result<(), ExchangeError>)
        ensures
            r is Ok <==> self.fresh(now),
            r matches Err(e) ==> e == ExchangeError::StaleCache,
    {
        if self.pool_party_next_raffle > TIME_THRESHOLD && now < self.pool_party_next_raffle - TIME_THRESHOLD {
            Ok(())
        } else {
            Err(ExchangeError::StaleCache)
        }
    }
    /// Exchanges `amount_tokens` of the user's tokens for tickets of the
    /// pool's reserve. On success the tickets are held back from the cached
    /// reserve and the tokens move to the contract at once, before the pool
    /// is asked to grant the tickets; the callback settles or undoes this.
    pub fn exchange_tokens_for_tickets(
        &mut self,
        ledger: &mut LedgerView,
        amount_tokens: u128,
        prepaid_gas: u64,
        now: u64,
    ) -> (r: Result<PendingExchange, ExchangeError>)
        requires
            old(ledger).wf(),
        ensures
            final(ledger).wf(),
            final(ledger).total_supply == old(ledger).total_supply,
            r is Err <==> old(self).tickets_error(*old(ledger), amount_tokens, prepaid_gas, now) is Some,
            r matches Err(e) ==> Some(e) == old(self).tickets_error(*old(ledger), amount_tokens, prepaid_gas, now)
                && *final(self) == *old(self) && *final(ledger) == *old(ledger),
            r matches Ok(p) ==> {
                &&& p.tokens == amount_tokens
                &&& p.tickets == tickets_for(amount_tokens as int, old(self).pool_party_reserve as int, old(ledger).circulating())
                &&& p.tickets <= old(self).pool_party_reserve
                &&& *final(self) == old(self).hold(p.tickets as int)
                &&& *final(ledger) == old(ledger).to_contract(amount_tokens as int)
            },
    {
        if prepaid_gas < EXCHANGE_TOKENS_GAS {
            return Err(ExchangeError::InsufficientGas);
        }
        let fresh = self.check_not_close_to_raffle(now);
        if fresh.is_err() {
            return Err(ExchangeError::StaleCache);
        }
        if amount_tokens == 0 {
            return Err(ExchangeError::ZeroAmount);
        }
        if amount_tokens > ledger.user_balance {
            return Err(ExchangeError::InsufficientBalance);
        }
        let circulating = ledger.circulating_outstanding();
        proof {
            lemma_tickets_monotonic(
                amount_tokens as int,
                amount_tokens as int,
                self.pool_party_reserve as int,
                self.pool_party_reserve as int,
                circulating as int,
            );
        }
        let tickets = match tokens_to_tickets(amount_tokens, self.pool_party_reserve, circulating) {
            Some(t) => t,
            // The amount is within the circulating supply, so the tickets
            // are within the reserve and always fit.
            None => {
                proof { assert(false); }
                0
            },
        };
        self.pool_party_reserve = self.pool_party_reserve - tickets;
        ledger.transfer_to_contract(amount_tokens);
        Ok(PendingExchange { tokens: amount_tokens, tickets })
    }

    /// Settles an exchange of tokens for tickets once the pool answered.
    /// Where the pool granted the tickets, nothing changes and the result is
    /// `Ok(true)`. Otherwise the tokens go back to the user and the tickets
    /// back to the cached reserve, and the result is `Ok(false)`.
    pub fn exchange_tokens_for_tickets_callback(
        &mut self,
        ledger: &mut LedgerView,
        tokens: u128,
        tickets: u128,
        results: &Vec<PromiseOutcome>,
    ) -> (r: Result<bool, ExchangeError>)
        requires
            old(ledger).wf(),
        ensures
            final(ledger).wf(),
            promise_succeeded(results@) ==> r == Ok::<bool, ExchangeError>(true)
                && *final(self) == *old(self) && *final(ledger) == *old(ledger),
            !promise_succeeded(results@) ==> match old(self).credit_error(*old(ledger), tokens, tickets) {
                Some(e) => r == Err::<bool, ExchangeError>(e) && *final(self) == *old(self)
                    && *final(ledger) == *old(ledger),
                None => r == Ok::<bool, ExchangeError>(false) && *final(self) == old(self).release(tickets as int)
                    && *final(ledger) == old(ledger).to_user(tokens as int),
            },
    {
        if did_promise_succeded(results) {
            return Ok(true);
        }
        let credited = self.credit(ledger, tokens, tickets);
        match credited {
            Ok(()) => Ok(false),
            Err(e) => Err(e),
        }
    }

    /// Moves `tokens` from the contract to the user and adds `amount` to the
    /// cached reserve, or changes nothing where that cannot be done.
    fn credit(&mut self, ledger: &mut LedgerView, tokens: u128, amount: u128) -> (r: Result<(), ExchangeError>)
        requires
            old(ledger).wf(),
        ensures
            final(ledger).wf(),
            match old(self).credit_error(*old(ledger), tokens, amount) {
                Some(e) => r == Err::<(), ExchangeError>(e) && *final(self) == *old(self)
                    && *final(ledger) == *old(ledger),
                None => r is Ok && *final(self) == old(self).release(amount as int)
                    && *final(ledger) == old(ledger).to_user(tokens as int),
            },
    {
        if tokens == 0 {
            return Err(ExchangeError::ZeroAmount);
        }
        if tokens > ledger.contract_balance {
            return Err(ExchangeError::InsufficientInventory);
        }
        if amount > u128::MAX - self.pool_party_reserve {
            return Err(ExchangeError::ReserveOverflow);
        }
        ledger.transfer_to_user(tokens);
        self.pool_party_reserve = self.pool_party_reserve + amount;
        Ok(())
    }

    /// Prices the payment `attached_deposit` in tokens. Nothing changes here:
    /// the payment goes to the pool first, and the callback hands out the tokens.
    pub fn exchange_near_for_tokens(
        &self,
        ledger: &LedgerView,
        attached_deposit: u128,
        prepaid_gas: u64,
        now: u64,
    ) -> (r: Result<u128, ExchangeError>)
        requires
            ledger.wf(),
        ensures
            r is Err <==> self.tokens_error(*ledger, attached_deposit, prepaid_gas, now) is Some,
            r matches Err(e) ==> Some(e) == self.tokens_error(*ledger, attached_deposit, prepaid_gas, now),
            r matches Ok(t) ==> t == tokens_for(attached_deposit as int, ledger.circulating(), self.pool_party_reserve as int)
                && 0 < t <= ledger.contract_balance,
    {
        if prepaid_gas < EXCHANGE_NEAR_GAS {
            return Err(ExchangeError::InsufficientGas);
        }
        if attached_deposit == 0 {
            return Err(ExchangeError::ZeroAmount);
        }
        let fresh = self.check_not_close_to_raffle(now);
        if fresh.is_err() {
            return Err(ExchangeError::StaleCache);
        }
        if self.pool_party_reserve == 0 {
            return Err(ExchangeError::NoReserve);
        }
        let circulating = ledger.circulating_outstanding();
        match near_to_tokens(attached_deposit, circulating, self.pool_party_reserve) {
            None => Err(ExchangeError::InsufficientInventory),
            Some(t) => {
                if t > ledger.contract_balance {
                    Err(ExchangeError::InsufficientInventory)
                } else if t == 0 {
                    Err(ExchangeError::ZeroAmount)
                } else {
                    Ok(t)
                }
            },
        }
    }

    /// Settles an exchange of native currency for tokens once the pool
    /// answered. Where the pool took the payment, the tokens move to the user
    /// and the payment joins the cached reserve; where it did not, the
    /// exchange fails and nothing changes.
    pub fn exchange_near_for_tokens_callback(
        &mut self,
        ledger: &mut LedgerView,
        tokens: u128,
        native_amount: u128,
        results: &Vec<PromiseOutcome>,
    ) -> (r: Result<(), ExchangeError>)
        requires
            old(ledger).wf(),
        ensures
            final(ledger).wf(),
            !promise_succeeded(results@) ==> r == Err::<(), ExchangeError>(ExchangeError::ExternalCallFailed)
                && *final(self) == *old(self) && *final(ledger) == *old(ledger),
            promise_succeeded(results@) ==> match old(self).credit_error(*old(ledger), tokens, native_amount) {
                Some(e) => r == Err::<(), ExchangeError>(e) && *final(self) == *old(self)
                    && *final(ledger) == *old(ledger),
                None => r is Ok && *final(self) == old(self).release(native_amount as int)
                    && *final(ledger) == old(ledger).to_user(tokens as int),
            },
    {
        if !did_promise_succeded(results) {
            return Err(ExchangeError::ExternalCallFailed);
        }
        self.credit(ledger, tokens, native_amount)
    }
}


/// An exchange of tokens for tickets whose grant then fails is undone
/// exactly: the compensation always goes through, and the user's balance,
/// the contract's balance and the cached reserve are back where they were.
pub proof fn lemma_failed_grant_restores(c: Contract, ledger: LedgerView, amount: u128, gas: u64, now: u64)
    requires
        ledger.wf(),
        c.tickets_error(ledger, amount, gas, now) is None,
    ensures
        ({
            let tickets = tickets_for(amount as int, c.pool_party_reserve as int, ledger.circulating());
            let held = c.hold(tickets);
            let moved = ledger.to_contract(amount as int);
            &&& held.credit_error(moved, amount, tickets as u128) is None
            &&& held.release(tickets) == c
            &&& moved.to_user(amount as int) == ledger
        }),
{
    let tickets = tickets_for(amount as int, c.pool_party_reserve as int, ledger.circulating());
    lemma_tickets_monotonic(
        amount as int,
        amount as int,
        c.pool_party_reserve as int,
        c.pool_party_reserve as int,
        ledger.circulating(),
    );
    assert(0 <= tickets) by (nonlinear_arith)
        requires
            tickets == (c.pool_party_reserve * amount) / ledger.circulating(),
            ledger.circulating() > 0,
    ;
}

/// Answers of the pool processed out of order cannot move the cache back:
/// once the answer for the later raffle is taken, the one for the earlier
/// raffle changes nothing.
pub proof fn lemma_refresh_out_of_order(c: Contract, earlier: PoolInfo, later: PoolInfo)
    requires
        earlier.next_prize_tmstmp < later.next_prize_tmstmp,
    ensures
        c.after_refresh(later).after_refresh(earlier) == c.after_refresh(later),
        c.after_refresh(later).pool_party_next_raffle >= later.next_prize_tmstmp,
{
}

/// Inside the window before the next raffle, every exchange that was given
/// its gas (and, for a purchase, a payment) is refused as stale.
pub proof fn lemma_stale_cache_refuses(c: Contract, ledger: LedgerView, amount: u128, native: u128, gas: u64, now: u64)
    requires
        now + TIME_THRESHOLD >= c.pool_party_next_raffle,
    ensures
        gas >= EXCHANGE_TOKENS_GAS ==> c.tickets_error(ledger, amount, gas, now) == Some(ExchangeError::StaleCache),
        gas >= EXCHANGE_NEAR_GAS && native > 0 ==> c.tokens_error(ledger, native, gas, now) == Some(ExchangeError::StaleCache),
{
}

} // verus!
