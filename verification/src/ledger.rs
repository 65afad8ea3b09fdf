//! The ledger: who holds how much, and how much there is in total.

use vstd::prelude::*;
use crate::account::AccountId;
use crate::account::Balance;
use crate::error::Error;
use crate::table::Table;
use crate::totals::amount_at;
use crate::totals::lemma_total_empty;
use crate::totals::lemma_total_insert;
use crate::totals::total;

verus! {

/// A credit was refused because the balance would not fit in a [`Balance`].
#[derive(Debug, Clone, Copy, PartialEq, Eq)]
pub struct BalanceOverflow;

/// The balance of every account, and the total supply.
///
/// The total supply is fixed when the ledger is made and no operation
/// changes it. `credit` and `debit` each change one balance; it is the
/// caller's business to pair them so that the balances keep adding up to the
/// total supply.
pub struct Ledger {
    total_supply: Balance,
    balances: Table<AccountId>,
}

impl View for Ledger {
    type V = Map<AccountId, Balance>;

    /// The stored balances. An account without an entry holds nothing.
    closed spec fn view(&self) -> Map<AccountId, Balance> {
        self.balances@
    }
}

impl Ledger {
    /// The internal consistency of the ledger's storage.
    pub closed spec fn wf(&self) -> bool {
        self.balances.wf()
    }

    pub closed spec fn spec_total_supply(&self) -> Balance {
        self.total_supply
    }

    pub open spec fn spec_balance_of(&self, account: AccountId) -> Balance {
        amount_at(self@, account)
    }

    /// Finitely many accounts have an entry.
    pub proof fn lemma_finite(&self)
        ensures
            self@.dom().finite(),
    {
        self.balances.lemma_finite();
    }

    /// A ledger in which `holder` holds the whole of `total_supply`.
    pub fn new(holder: AccountId, total_supply: Balance) -> (ledger: Self)
        ensures
            ledger.wf(),
            ledger.spec_total_supply() == total_supply,
            ledger@ == Map::<AccountId, Balance>::empty().insert(holder, total_supply),
            total(ledger@) == total_supply,
    {
        let mut balances: Table<AccountId> = Table::new();
        balances.insert(holder, total_supply);
        proof {
            lemma_total_empty::<AccountId>();
            lemma_total_insert(Map::<AccountId, Balance>::empty(), holder, total_supply);
        }
        Ledger { total_supply, balances }
    }

    /// The total supply.
    #[verifier::when_used_as_spec(spec_total_supply)]
    pub fn total_supply(&self) -> (supply: Balance)
        ensures
            supply == self.spec_total_supply(),
    {
        self.total_supply
    }

    /// The balance of `account`: what is stored for it, or zero if nothing is.
    #[verifier::when_used_as_spec(spec_balance_of)]
    pub fn balance_of(&self, account: AccountId) -> (balance: Balance)
        requires
            self.wf(),
        ensures
            balance == self.spec_balance_of(account),
    {
        self.balances.get_or_default(&account)
    }

    /// Adds `amount` to the balance of `account`.
    ///
    /// The credit is refused, and nothing changes, if the new balance would
    /// not fit in a [`Balance`].
    pub fn credit(&mut self, account: AccountId, amount: Balance) -> (credited: Result<
        (),
        BalanceOverflow,
    >)
        requires
            old(self).wf(),
        ensures
            final(self).wf(),
            final(self).total_supply() == old(self).total_supply(),
            credited is Ok <==> old(self).balance_of(account) + amount <= Balance::MAX,
            credited is Ok ==> final(self)@ == old(self)@.insert(
                account,
                (old(self).balance_of(account) + amount) as Balance,
            ),
            credited is Err ==> final(self)@ == old(self)@,
    {
        let balance = self.balances.get_or_default(&account);
        match balance.checked_add(amount) {
            Some(raised) => {
                self.balances.insert(account, raised);
                Ok(())
            },
            None => Err(BalanceOverflow),
        }
    }

    /// Takes `amount` from the balance of `account`.
    ///
    /// The debit is refused with [`Error::InsufficientBalance`], and nothing
    /// changes, if the account holds less than `amount`.
    pub fn debit(&mut self, account: AccountId, amount: Balance) -> (debited: Result<(), Error>)
        requires
            old(self).wf(),
        ensures
            final(self).wf(),
            final(self).total_supply() == old(self).total_supply(),
            debited == (if old(self).balance_of(account) < amount {
                Err::<(), Error>(Error::InsufficientBalance)
            } else {
                Ok::<(), Error>(())
            }),
            debited is Ok ==> final(self)@ == old(self)@.insert(
                account,
                (old(self).balance_of(account) - amount) as Balance,
            ),
            debited is Err ==> final(self)@ == old(self)@,
    {
        let balance = self.balances.get_or_default(&account);
        match balance.checked_sub(amount) {
            Some(lowered) => {
                self.balances.insert(account, lowered);
                Ok(())
            },
            None => Err(Error::InsufficientBalance),
        }
    }
}

} // verus!
