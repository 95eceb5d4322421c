use vstd::prelude::*;
use crate::error::Error;
use crate::origin::Origin;

verus! {

/// Amount of currency held by an account or issued in total.
pub type Balance = u128;

/// The sum of all balances in the finite map `balances`.
pub open spec fn sum_of<AccountId>(balances: Map<AccountId, Balance>) -> nat
    decreases balances.dom().len(),
    when balances.dom().finite()
{
    if balances.dom().len() == 0 {
        0
    } else {
        let who = balances.dom().choose();
        balances[who] as nat + sum_of(balances.remove(who))
    }
}

/// The sum of a finite map is the balance of any one account plus the sum
/// over the others.
pub proof fn lemma_sum_of_remove<AccountId>(balances: Map<AccountId, Balance>, who: AccountId)
    requires
        balances.dom().finite(),
        balances.contains_key(who),
    ensures
        sum_of(balances) == balances[who] + sum_of(balances.remove(who)),
    decreases balances.dom().len(),
{
    let first = balances.dom().choose();
    if first != who {
        let rest = balances.remove(first);
        lemma_sum_of_remove(rest, who);
        lemma_sum_of_remove(balances.remove(who), first);
        assert(rest.remove(who) =~= balances.remove(who).remove(first));
    }
}

/// Writing `value` for `who` replaces the old balance of `who`, if any, in
/// the sum.
pub proof fn lemma_sum_of_insert<AccountId>(
    balances: Map<AccountId, Balance>,
    who: AccountId,
    value: Balance,
)
    requires
        balances.dom().finite(),
    ensures
        balances.contains_key(who) ==> sum_of(balances.insert(who, value)) == sum_of(balances)
            - balances[who] + value,
        !balances.contains_key(who) ==> sum_of(balances.insert(who, value)) == sum_of(balances)
            + value,
{
    let after = balances.insert(who, value);
    lemma_sum_of_remove(after, who);
    assert(after.remove(who) =~= balances.remove(who));
    if balances.contains_key(who) {
        lemma_sum_of_remove(balances, who);
    } else {
        assert(balances.remove(who) =~= balances);
    }
}

/// What the two storage cells hold: the total issuance, absent until the
/// first mint, and the balance entries.
#[verifier::ext_equal]
#[verifier::reject_recursive_types(AccountId)]
pub struct Ledger<AccountId> {
    pub total_issuance: Option<Balance>,
    pub balances: Map<AccountId, Balance>,
}

impl<AccountId> Ledger<AccountId> {
    /// The ledger before anything was minted: no total issuance, no entries.
    pub open spec fn empty() -> Self {
        Ledger { total_issuance: None, balances: Map::empty() }
    }

    /// The ledger holds finitely many entries.
    pub open spec fn wf(self) -> bool {
        self.balances.dom().finite()
    }

    /// The total issuance; zero while absent.
    pub open spec fn total(self) -> Balance {
        match self.total_issuance {
            Some(total) => total,
            None => 0,
        }
    }

    /// Whether `who` has a balance entry, be it zero.
    pub open spec fn has_balance(self, who: AccountId) -> bool {
        self.balances.contains_key(who)
    }

    /// The balance entry of `who`, if it has one.
    pub open spec fn balance_entry(self, who: AccountId) -> Option<Balance> {
        if self.balances.contains_key(who) {
            Some(self.balances[who])
        } else {
            None
        }
    }

    /// The balance of `who`; zero where `who` has no entry.
    pub open spec fn balance(self, who: AccountId) -> Balance {
        match self.balance_entry(who) {
            Some(balance) => balance,
            None => 0,
        }
    }

    /// The sum of all balances.
    pub open spec fn sum(self) -> nat {
        sum_of(self.balances)
    }

    /// The balances add up to the total issuance.
    pub open spec fn balanced(self) -> bool {
        self.wf() && self.sum() == self.total()
    }

    /// The balances add up to no more than the total issuance.
    pub open spec fn covered(self) -> bool {
        self.wf() && self.sum() <= self.total()
    }

    /// The ledger with `value` written as the balance of `who`.
    pub open spec fn with_balance(self, who: AccountId, value: Balance) -> Self {
        Ledger { total_issuance: self.total_issuance, balances: self.balances.insert(who, value) }
    }

    /// The ledger with `value` written as the total issuance.
    pub open spec fn with_total(self, value: Balance) -> Self {
        Ledger { total_issuance: Some(value), balances: self.balances }
    }

    /// Minting `amount` into `dest` with existential deposit `ed`: the new
    /// ledger, or why the call is refused. The checks come in this order.
    pub open spec fn mint_unsafe(
        self,
        ed: Balance,
        origin: Origin<AccountId>,
        dest: AccountId,
        amount: Balance,
    ) -> Result<Self, Error> {
        if origin.signer() is None {
            Err(Error::AuthenticationFailed)
        } else if amount < ed {
            Err(Error::AmountBelowMinimum)
        } else if self.has_balance(dest) {
            Err(Error::AccountAlreadyExists)
        } else if self.total() + amount > Balance::MAX {
            Err(Error::ArithmeticOverflow)
        } else {
            Ok(self.with_balance(dest, amount).with_total((self.total() + amount) as Balance))
        }
    }

    /// Transferring `amount` from the signer of `origin` to `dest`: the new
    /// ledger, or why the call is refused. The checks come in this order. The
    /// destination is credited first and the sender's remainder written last,
    /// so a transfer to oneself leaves the remainder.
    pub open spec fn transfer(
        self,
        origin: Origin<AccountId>,
        dest: AccountId,
        amount: Balance,
    ) -> Result<Self, Error> {
        match origin.signer() {
            None => Err(Error::AuthenticationFailed),
            Some(sender) => {
                if !self.has_balance(sender) {
                    Err(Error::NonExistentAccount)
                } else if amount > self.balance(sender) {
                    Err(Error::InsufficientBalance)
                } else if self.balance(dest) + amount > Balance::MAX {
                    Err(Error::ArithmeticOverflow)
                } else {
                    Ok(
                        self.with_balance(dest, (self.balance(dest) + amount) as Balance)
                            .with_balance(sender, (self.balance(sender) - amount) as Balance),
                    )
                }
            },
        }
    }
}

/// One of the two dispatchable calls, with the origin it comes from.
pub enum Call<AccountId> {
    /// Mint `amount` into `dest`.
    MintUnsafe { origin: Origin<AccountId>, dest: AccountId, amount: Balance },
    /// Transfer `amount` from the signer of `origin` to `dest`.
    Transfer { origin: Origin<AccountId>, dest: AccountId, amount: Balance },
}

impl<AccountId> Ledger<AccountId> {
    /// What `call` makes of the ledger: the new ledger, or why it is refused.
    pub open spec fn dispatch(self, ed: Balance, call: Call<AccountId>) -> Result<Self, Error> {
        match call {
            Call::MintUnsafe { origin, dest, amount } => self.mint_unsafe(ed, origin, dest, amount),
            Call::Transfer { origin, dest, amount } => self.transfer(origin, dest, amount),
        }
    }

    /// The ledger once `call` has returned: a refused call leaves it as it was.
    pub open spec fn after(self, ed: Balance, call: Call<AccountId>) -> Self {
        match self.dispatch(ed, call) {
            Ok(next) => next,
            Err(_) => self,
        }
    }

    /// The ledger once `calls` have returned, one after the other.
    pub open spec fn after_all(self, ed: Balance, calls: Seq<Call<AccountId>>) -> Self
        decreases calls.len(),
    {
        if calls.len() == 0 {
            self
        } else {
            self.after_all(ed, calls.drop_last()).after(ed, calls.last())
        }
    }

    /// `call` is a transfer of a positive amount from an account to itself
    /// that this ledger accepts. Such a transfer writes the credited balance
    /// and then the remainder over it, so the amount leaves the balances
    /// while total issuance stays.
    pub open spec fn burns(self, call: Call<AccountId>) -> bool {
        call matches Call::Transfer { origin, dest, amount } && origin.signer() == Some(dest)
            && amount > 0 && self.transfer(origin, dest, amount) is Ok
    }

    /// None of `calls`, each taken in the ledger that the calls before it
    /// leave, burns anything.
    pub open spec fn conserving(self, ed: Balance, calls: Seq<Call<AccountId>>) -> bool {
        forall|i: int|
            0 <= i < calls.len() ==> !(#[trigger] self.after_all(ed, calls.take(i))).burns(calls[i])
    }
}

} // verus!
