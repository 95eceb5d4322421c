use vstd::prelude::*;
use vstd::std_specs::hash::obeys_key_model;
use std::hash::Hash;
use crate::error::Error;
use crate::laws::{lemma_mint_unsafe_adds, lemma_transfer_moves};
use crate::ledger::{Balance, Ledger};
use crate::origin::{authenticate_signed, Origin};
use crate::storage::Storage;

verus! {

/// What a deployment fixes once and for all.
#[derive(Clone, Copy, Debug, PartialEq, Eq, Structural)]
pub struct Config {
    /// The existential deposit: the least amount that can be minted.
    pub ed: Balance,
}

/// The ledger: its configuration and its two storage cells, which only
/// `mint_unsafe` and `transfer` change.
pub struct Pallet<AccountId> {
    config: Config,
    storage: Storage<AccountId>,
}

impl<AccountId> View for Pallet<AccountId> {
    type V = Ledger<AccountId>;

    closed spec fn view(&self) -> Ledger<AccountId> {
        self.storage@
    }
}

impl<AccountId: Eq + Hash> Pallet<AccountId> {
    /// The configuration that the ledger was made with.
    pub closed spec fn config(&self) -> Config {
        self.config
    }

    /// An empty ledger.
    pub fn new(config: Config) -> (pallet: Self)
        ensures
            pallet.config() == config,
            pallet@ == Ledger::<AccountId>::empty(),
            pallet@.balanced(),
    {
        Pallet { config, storage: Storage::new() }
    }

    /// A ledger over cells that were filled elsewhere.
    pub fn with_storage(config: Config, storage: Storage<AccountId>) -> (pallet: Self)
        ensures
            pallet.config() == config,
            pallet@ == storage@,
    {
        Pallet { config, storage }
    }

    /// The existential deposit.
    pub fn ed(&self) -> (ed: Balance)
        ensures
            ed == self.config().ed,
    {
        self.config.ed
    }

    /// The storage cells, to read.
    pub fn storage(&self) -> (storage: &Storage<AccountId>)
        ensures
            storage@ == self@,
    {
        &self.storage
    }

    /// Gives up the ledger for its storage cells.
    pub fn into_storage(self) -> (storage: Storage<AccountId>)
        ensures
            storage@ == self@,
    {
        self.storage
    }

    /// A ledger holds finitely many entries.
    pub proof fn lemma_wf(&self)
        ensures
            self@.wf(),
    {
        self.storage.lemma_wf();
    }

    /// Mints `amount` into the new account `dest`. Any signed caller may do
    /// so; who it is does not matter.
    ///
    /// The call is refused, and nothing is written, where the origin is not
    /// signed, the amount is below the existential deposit, `dest` has an
    /// entry already, or total issuance would overflow, in this order.
    pub fn mint_unsafe(
        &mut self,
        origin: Origin<AccountId>,
        dest: AccountId,
        amount: Balance,
    ) -> (result: Result<(), Error>)
        requires
            obeys_key_model::<AccountId>(),
        ensures
            final(self).config() == old(self).config(),
            match old(self)@.mint_unsafe(old(self).config().ed, origin, dest, amount) {
                Ok(next) => result is Ok && final(self)@ == next,
                Err(error) => result == Err::<(), Error>(error) && final(self)@ == old(self)@,
            },
            result is Err ==> final(self)@ == old(self)@,
            origin.signer() is None ==> result == Err::<(), Error>(Error::AuthenticationFailed),
            origin.signer() is Some && amount < old(self).config().ed
                ==> result == Err::<(), Error>(Error::AmountBelowMinimum),
            origin.signer() is Some && amount >= old(self).config().ed
                && old(self)@.has_balance(dest)
                ==> result == Err::<(), Error>(Error::AccountAlreadyExists),
            result is Ok ==> final(self)@.balance(dest) == amount
                && final(self)@.total() == old(self)@.total() + amount,
            old(self)@.balanced() ==> final(self)@.balanced(),
            old(self)@.covered() ==> final(self)@.covered(),
    {
        proof {
            self.lemma_wf();
            lemma_mint_unsafe_adds(self@, self.config().ed, origin, dest, amount);
        }
        match authenticate_signed(origin) {
            Ok(_) => {},
            Err(error) => {
                return Err(error);
            },
        }
        if amount < self.config.ed {
            return Err(Error::AmountBelowMinimum);
        }
        if self.storage.has_balance(&dest) {
            return Err(Error::AccountAlreadyExists);
        }
        let credited: Balance = self.storage.balance(&dest) + amount;
        let issued: Balance = match self.storage.total_issuance().checked_add(amount) {
            Some(issued) => issued,
            None => {
                return Err(Error::ArithmeticOverflow);
            },
        };
        self.storage.set_balance(dest, credited);
        self.storage.set_total_issuance(issued);
        Ok(())
    }

    /// Transfers `amount` from the signer of `origin` to `dest`. The sender
    /// keeps its entry, also where nothing is left in it, and no existential
    /// deposit is asked of either side.
    ///
    /// The call is refused, and nothing is written, where the origin is not
    /// signed, the sender has no entry, the sender holds less than `amount`,
    /// or the balance of `dest` would overflow, in this order.
    pub fn transfer(
        &mut self,
        origin: Origin<AccountId>,
        dest: AccountId,
        amount: Balance,
    ) -> (result: Result<(), Error>)
        requires
            obeys_key_model::<AccountId>(),
        ensures
            final(self).config() == old(self).config(),
            match old(self)@.transfer(origin, dest, amount) {
                Ok(next) => result is Ok && final(self)@ == next,
                Err(error) => result == Err::<(), Error>(error) && final(self)@ == old(self)@,
            },
            result is Err ==> final(self)@ == old(self)@,
            origin.signer() is None ==> result == Err::<(), Error>(Error::AuthenticationFailed),
            origin.signer() matches Some(sender) && !old(self)@.has_balance(sender)
                ==> result == Err::<(), Error>(Error::NonExistentAccount),
            origin.signer() matches Some(sender) && old(self)@.has_balance(sender)
                && amount > old(self)@.balance(sender)
                ==> result == Err::<(), Error>(Error::InsufficientBalance),
            final(self)@.total_issuance == old(self)@.total_issuance,
            old(self)@.balanced() && (origin.signer() != Some(dest) || amount == 0)
                ==> final(self)@.balanced(),
            old(self)@.covered() ==> final(self)@.covered(),
    {
        proof {
            self.lemma_wf();
            lemma_transfer_moves(self@, origin, dest, amount);
        }
        let sender = match authenticate_signed(origin) {
            Ok(sender) => sender,
            Err(error) => {
                return Err(error);
            },
        };
        let sender_balance: Balance = match self.storage.balance_entry(&sender) {
            Some(balance) => balance,
            None => {
                return Err(Error::NonExistentAccount);
            },
        };
        let remainder: Balance = match sender_balance.checked_sub(amount) {
            Some(remainder) => remainder,
            None => {
                return Err(Error::InsufficientBalance);
            },
        };
        let credited: Balance = match self.storage.balance(&dest).checked_add(amount) {
            Some(credited) => credited,
            None => {
                return Err(Error::ArithmeticOverflow);
            },
        };
        self.storage.set_balance(dest, credited);
        self.storage.set_balance(sender, remainder);
        Ok(())
    }
}

} // verus!
