//! What the staking pool answers, and how the outcome of an external call
//! reaches a callback.

use vstd::prelude::*;

verus! {

/// The staking pool's description of itself, as its `get_pool_info` answers.
#[derive(Clone, Copy, Debug, PartialEq, Eq)]
pub struct PoolInfo {
    pub total_staked: u128,
    pub reserve: u128,
    pub prize: u128,
    pub next_prize_tmstmp: u64,
    pub withdraw_ready: bool,
}

/// The result of one external call, as the host hands it to the callback.
#[derive(Clone, Debug, PartialEq, Eq)]
pub enum PromiseOutcome {
    NotReady,
    Successful(Vec<u8>),
    Failed,
}

/// The external call that the callback follows succeeded.
pub open spec fn promise_succeeded(results: Seq<PromiseOutcome>) -> bool {
    results.len() == 1 && results[0] is Successful
}

/// Whether the callback sees exactly one result, and that result is a success.
pub fn did_promise_succeded(results: &Vec<PromiseOutcome>) -> (r: bool)
    ensures
        r == promise_succeeded(results@),
{
    if results.len() != 1 {
        return false;
    }
    match &results[0] {
        PromiseOutcome::Successful(_) => true,
        _ => false,
    }
}

} // verus!
