use vstd::prelude::*;
use vstd::std_specs::hash::obeys_key_model;
use std::collections::HashMap;
use std::hash::Hash;
use crate::ledger::{Balance, Ledger};

verus! {

/// The two storage cells of the ledger, held in memory: the total issuance,
/// absent until first written, and the balance entries by account.
pub struct Storage<AccountId> {
    total_issuance: Option<Balance>,
    balances: HashMap<AccountId, Balance>,
}

impl<AccountId> View for Storage<AccountId> {
    type V = Ledger<AccountId>;

    closed spec fn view(&self) -> Ledger<AccountId> {
        Ledger { total_issuance: self.total_issuance, balances: self.balances@ }
    }
}

impl<AccountId: Eq + Hash> Storage<AccountId> {
    /// Both cells empty.
    pub fn new() -> (storage: Self)
        ensures
            storage@ == Ledger::<AccountId>::empty(),
    {
        Storage { total_issuance: None, balances: HashMap::new() }
    }

    /// A storage holds finitely many entries.
    pub proof fn lemma_wf(&self)
        ensures
            self@.wf(),
    {
    }

    /// The total-issuance cell as it is stored.
    pub fn total_issuance_entry(&self) -> (entry: Option<Balance>)
        ensures
            entry == self@.total_issuance,
    {
        self.total_issuance
    }

    /// The balance entry of `who` as it is stored.
    pub fn balance_entry(&self, who: &AccountId) -> (entry: Option<Balance>)
        requires
            obeys_key_model::<AccountId>(),
        ensures
            entry == self@.balance_entry(*who),
    {
        match self.balances.get(who) {
            Some(balance) => Some(*balance),
            None => None,
        }
    }

    /// The total issuance; zero while the cell is absent.
    pub fn total_issuance(&self) -> (total: Balance)
        ensures
            total == self@.total(),
    {
        match self.total_issuance {
            Some(total) => total,
            None => 0,
        }
    }

    /// The balance of `who`; zero where `who` has no entry.
    pub fn balance(&self, who: &AccountId) -> (balance: Balance)
        requires
            obeys_key_model::<AccountId>(),
        ensures
            balance == self@.balance(*who),
    {
        match self.balance_entry(who) {
            Some(balance) => balance,
            None => 0,
        }
    }

    /// Whether `who` has an entry, be it zero.
    pub fn has_balance(&self, who: &AccountId) -> (present: bool)
        requires
            obeys_key_model::<AccountId>(),
        ensures
            present == self@.has_balance(*who),
    {
        self.balances.contains_key(who)
    }

    /// Writes `value` as the balance of `who`, creating the entry or
    /// overwriting it, also where `value` is zero.
    pub fn set_balance(&mut self, who: AccountId, value: Balance)
        requires
            obeys_key_model::<AccountId>(),
        ensures
            final(self)@ == old(self)@.with_balance(who, value),
    {
        self.balances.insert(who, value);
    }

    /// Writes `value` as the total issuance.
    pub fn set_total_issuance(&mut self, value: Balance)
        ensures
            final(self)@ == old(self)@.with_total(value),
    {
        self.total_issuance = Some(value);
    }
}

} // verus!
