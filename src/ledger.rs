//! The part of the token ledger that one exchange touches.

use vstd::prelude::*;

verus! {

/// Balances of the exchanging user and of the contract's own account, with
/// the token's total supply. Every other account holds the rest.
#[derive(Clone, Copy, Debug, PartialEq, Eq)]
pub struct LedgerView {
    pub user_balance: u128,
    pub contract_balance: u128,
    pub total_supply: u128,
}

impl LedgerView {
    /// The two accounts never hold more than the whole supply.
    pub open spec fn wf(self) -> bool {
        self.user_balance + self.contract_balance <= self.total_supply
    }

    /// Tokens outstanding outside the contract's own account.
    pub open spec fn circulating(self) -> int {
        self.total_supply - self.contract_balance
    }

    /// The ledger after `amount` tokens move from the user to the contract.
    pub open spec fn to_contract(self, amount: int) -> LedgerView {
        LedgerView {
            user_balance: (self.user_balance - amount) as u128,
            contract_balance: (self.contract_balance + amount) as u128,
            total_supply: self.total_supply,
        }
    }

    /// The ledger after `amount` tokens move from the contract to the user.
    pub open spec fn to_user(self, amount: int) -> LedgerView {
        LedgerView {
            user_balance: (self.user_balance + amount) as u128,
            contract_balance: (self.contract_balance - amount) as u128,
            total_supply: self.total_supply,
        }
    }

    /// Tokens outstanding outside the contract's own account.
    pub fn circulating_outstanding(&self) -> (r: u128)
        requires
            self.wf(),
        ensures
            r == self.circulating(),
    {
        self.total_supply - self.contract_balance
    }

    /// Moves `amount` tokens from the user to the contract.
    pub fn transfer_to_contract(&mut self, amount: u128)
        requires
            old(self).wf(),
            amount <= old(self).user_balance,
        ensures
            *final(self) == old(self).to_contract(amount as int),
            final(self).wf(),
    {
        self.user_balance = self.user_balance - amount;
        self.contract_balance = self.contract_balance + amount;
    }

    /// Moves `amount` tokens from the contract to the user.
    pub fn transfer_to_user(&mut self, amount: u128)
        requires
            old(self).wf(),
            amount <= old(self).contract_balance,
        ensures
            *final(self) == old(self).to_user(amount as int),
            final(self).wf(),
    {
        self.contract_balance = self.contract_balance - amount;
        self.user_balance = self.user_balance + amount;
    }
}

} // verus!
