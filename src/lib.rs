//! Pool token: a fungible token that is exchanged for tickets of an external
//! staking pool, priced against a cached copy of the pool's reserve.

pub mod external;
pub mod ledger;
pub mod pricing;
pub mod settlement;

pub use external::{did_promise_succeded, PoolInfo, PromiseOutcome};
pub use ledger::LedgerView;
pub use settlement::{Contract, ExchangeError, PendingExchange};
