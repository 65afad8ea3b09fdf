//! The allowance registry: how much each spender may move on behalf of each
//! owner.

use vstd::prelude::*;
use crate::account::AccountId;
use crate::account::Balance;
use crate::error::Error;
use crate::table::Table;
use crate::totals::amount_at;

verus! {

/// The allowance of every (owner, spender) pair.
pub struct AllowanceRegistry {
    allowances: Table<(AccountId, AccountId)>,
}

impl View for AllowanceRegistry {
    type V = Map<(AccountId, AccountId), Balance>;

    /// The stored allowances, keyed by (owner, spender). A pair without an
    /// entry has been granted nothing.
    closed spec fn view(&self) -> Map<(AccountId, AccountId), Balance> {
        self.allowances@
    }
}

impl AllowanceRegistry {
    /// The internal consistency of the registry's storage.
    pub closed spec fn wf(&self) -> bool {
        self.allowances.wf()
    }

    pub open spec fn spec_allowance_of(&self, owner: AccountId, spender: AccountId) -> Balance {
        amount_at(self@, (owner, spender))
    }

    /// A registry in which nobody has been granted anything.
    pub fn new() -> (registry: Self)
        ensures
            registry.wf(),
            registry@ == Map::<(AccountId, AccountId), Balance>::empty(),
    {
        AllowanceRegistry { allowances: Table::new() }
    }

    /// What `spender` may still move on behalf of `owner`: what is stored for
    /// the pair, or zero if nothing is.
    #[verifier::when_used_as_spec(spec_allowance_of)]
    pub fn allowance_of(&self, owner: AccountId, spender: AccountId) -> (allowance: Balance)
        requires
            self.wf(),
        ensures
            allowance == self.spec_allowance_of(owner, spender),
    {
        self.allowances.get_or_default(&(owner, spender))
    }

    /// Sets what `spender` may move on behalf of `owner` to `value`. The
    /// previous allowance is replaced, not added to.
    pub fn set_allowance(&mut self, owner: AccountId, spender: AccountId, value: Balance)
        requires
            old(self).wf(),
        ensures
            final(self).wf(),
            final(self)@ == old(self)@.insert((owner, spender), value),
    {
        self.allowances.insert((owner, spender), value);
    }

    /// Lowers what `spender` may move on behalf of `owner` by `amount`.
    ///
    /// The decrease is refused with [`Error::InsufficientAllowance`], and
    /// nothing changes, if the allowance is less than `amount`.
    pub fn decrease_allowance(
        &mut self,
        owner: AccountId,
        spender: AccountId,
        amount: Balance,
    ) -> (decreased: Result<(), Error>)
        requires
            old(self).wf(),
        ensures
            final(self).wf(),
            decreased == (if old(self).allowance_of(owner, spender) < amount {
                Err::<(), Error>(Error::InsufficientAllowance)
            } else {
                Ok::<(), Error>(())
            }),
            decreased is Ok ==> final(self)@ == old(self)@.insert(
                (owner, spender),
                (old(self).allowance_of(owner, spender) - amount) as Balance,
            ),
            decreased is Err ==> final(self)@ == old(self)@,
    {
        let allowance = self.allowances.get_or_default(&(owner, spender));
        match allowance.checked_sub(amount) {
            Some(lowered) => {
                self.allowances.insert((owner, spender), lowered);
                Ok(())
            },
            None => Err(Error::InsufficientAllowance),
        }
    }
}

} // verus!
