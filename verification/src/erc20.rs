//! The token: the operations that callers invoke.

use vstd::prelude::*;
use vstd::pervasive::unreached;
use crate::account::AccountId;
use crate::account::Balance;
use crate::allowances::AllowanceRegistry;
use crate::error::Error;
use crate::events::Approval;
use crate::events::Event;
use crate::events::EventLog;
use crate::events::Transfer;
use crate::ledger::Ledger;
use crate::state::TokenState;
use crate::totals::amount_at;
use crate::totals::lemma_amount_le_total;
use crate::totals::lemma_total_insert;

verus! {

/// A fungible token with a fixed total supply.
///
/// Every operation runs to completion before the next one starts, checks
/// before it changes anything, and either succeeds or leaves the token as it
/// was. The caller of an operation is named by an argument; whoever hosts
/// the token is responsible for passing the identity that really made the
/// call.
///
/// `approve` sets an allowance and does not add to it. A spender who sees a
/// pending change from one nonzero allowance to another may spend the old one
/// before the change and the new one after it. That is how this kind of token
/// behaves, and owners who care set the allowance to zero first.
pub struct Erc20 {
    ledger: Ledger,
    allowances: AllowanceRegistry,
    events: EventLog,
}

impl View for Erc20 {
    type V = TokenState;

    closed spec fn view(&self) -> TokenState {
        TokenState {
            total_supply: self.ledger.total_supply(),
            balances: self.ledger@,
            allowances: self.allowances@,
            events: self.events@,
        }
    }
}

impl Erc20 {
    /// The token is consistent: its storage is in order and its balances add
    /// up to the total supply. Construction establishes this and every
    /// operation keeps it.
    pub closed spec fn wf(&self) -> bool {
        &&& self.ledger.wf()
        &&& self.allowances.wf()
        &&& self@.conserved()
    }

    /// The balances of a consistent token add up to its total supply.
    pub proof fn lemma_conserved(&self)
        requires
            self.wf(),
        ensures
            self@.conserved(),
    {
    }

    /// Creates the token: `caller` receives the whole of `initial_supply`,
    /// and the creation is announced as a transfer from nobody.
    pub fn new(caller: AccountId, initial_supply: Balance) -> (token: Self)
        ensures
            token.wf(),
            token@ == TokenState::genesis(caller, initial_supply),
    {
        let ledger = Ledger::new(caller, initial_supply);
        let allowances = AllowanceRegistry::new();
        let mut events = EventLog::new();
        events.record(
            Event::Transfer(Transfer { from: None, to: Some(caller), value: initial_supply }),
        );
        proof {
            ledger.lemma_finite();
        }
        Erc20 { ledger, allowances, events }
    }

    /// The total supply.
    pub fn total_supply(&self) -> (supply: Balance)
        ensures
            supply == self@.total_supply,
    {
        self.ledger.total_supply()
    }

    /// What `owner` holds.
    pub fn balance_of(&self, owner: AccountId) -> (balance: Balance)
        requires
            self.wf(),
        ensures
            balance == self@.balance_of(owner),
    {
        self.ledger.balance_of(owner)
    }

    /// Moves `value` from `caller` to `to`.
    ///
    /// Rejected with [`Error::InsufficientBalance`] if `caller` holds less
    /// than `value`.
    pub fn transfer(
        &mut self,
        caller: AccountId,
        to: AccountId,
        value: Balance,
    ) -> (outcome: Result<(), Error>)
        requires
            old(self).wf(),
        ensures
            final(self).wf(),
            outcome == old(self)@.transfer_outcome(caller, value),
            final(self)@ == old(self)@.after_transfer(caller, to, value),
    {
        self.transfer_from_to(&caller, &to, value)
    }

    /// Moves `value` from `from` to `to` and announces it, provided `from`
    /// holds that much. Who may ask for this is decided by the callers of this
    /// routine.
    fn transfer_from_to(
        &mut self,
        from: &AccountId,
        to: &AccountId,
        value: Balance,
    ) -> (outcome: Result<(), Error>)
        requires
            old(self).wf(),
        ensures
            final(self).wf(),
            outcome == old(self)@.transfer_outcome(*from, value),
            outcome is Ok ==> final(self)@ == old(self)@.moved(*from, *to, value),
            outcome is Err ==> final(self)@ == old(self)@,
    {
        match self.ledger.debit(*from, value) {
            Ok(()) => {},
            Err(insufficient) => {
                return Err(insufficient);
            },
        }
        let ghost before = old(self)@;
        let ghost debited = self.ledger@;
        proof {
            // What is left after the debit adds up to the total supply less
            // `value`, so the receiver's balance has room for `value`.
            lemma_total_insert(
                before.balances,
                *from,
                (before.balance_of(*from) - value) as Balance,
            );
            self.ledger.lemma_finite();
            lemma_amount_le_total(debited, *to);
        }
        match self.ledger.credit(*to, value) {
            Ok(()) => {},
            Err(_) => {
                // Never taken: the credit was just shown to fit.
                unreached()
            },
        }
        self.events.record(
            Event::Transfer(Transfer { from: Some(*from), to: Some(*to), value }),
        );
        proof {
            lemma_total_insert(debited, *to, (amount_at(debited, *to) + value) as Balance);
            self.ledger.lemma_finite();
            assert(self@.balances =~= before.moved(*from, *to, value).balances);
        }
        Ok(())
    }

    /// Sets what `spender` may move on behalf of `caller` to `value`,
    /// replacing the previous allowance. Always succeeds.
    pub fn approve(
        &mut self,
        caller: AccountId,
        spender: AccountId,
        value: Balance,
    ) -> (outcome: Result<(), Error>)
        requires
            old(self).wf(),
        ensures
            final(self).wf(),
            outcome == Ok::<(), Error>(()),
            final(self)@ == old(self)@.after_approve(caller, spender, value),
    {
        self.allowances.set_allowance(caller, spender, value);
        self.events.record(Event::Approval(Approval { owner: caller, spender, value }));
        Ok(())
    }

    /// What `spender` may still move on behalf of `owner`.
    pub fn allowance(&self, owner: AccountId, spender: AccountId) -> (allowance: Balance)
        requires
            self.wf(),
        ensures
            allowance == self@.allowance(owner, spender),
    {
        self.allowances.allowance_of(owner, spender)
    }

    /// Moves `value` from `from` to `to` on the authority of the allowance
    /// that `from` granted to `caller`, and uses up that much of it.
    ///
    /// Rejected with [`Error::InsufficientAllowance`] if the allowance is
    /// less than `value`; otherwise rejected with
    /// [`Error::InsufficientBalance`] if `from` holds less than `value`.
    pub fn transfer_from(
        &mut self,
        caller: AccountId,
        from: AccountId,
        to: AccountId,
        value: Balance,
    ) -> (outcome: Result<(), Error>)
        requires
            old(self).wf(),
        ensures
            final(self).wf(),
            outcome == old(self)@.transfer_from_outcome(caller, from, value),
            final(self)@ == old(self)@.after_transfer_from(caller, from, to, value),
    {
        let allowance = self.allowances.allowance_of(from, caller);
        if allowance < value {
            return Err(Error::InsufficientAllowance);
        }
        match self.transfer_from_to(&from, &to, value) {
            Ok(()) => {},
            Err(insufficient) => {
                return Err(insufficient);
            },
        }
        self.allowances.decrease_allowance(from, caller, value)
    }

    /// The events emitted so far and not yet taken, oldest first.
    pub fn events(&self) -> (events: &Vec<Event>)
        ensures
            events@ == self@.events,
    {
        self.events.entries()
    }

    /// Hands out the events emitted so far, oldest first, and empties the
    /// log. Balances and allowances are not touched.
    pub fn take_events(&mut self) -> (taken: Vec<Event>)
        requires
            old(self).wf(),
        ensures
            final(self).wf(),
            taken@ == old(self)@.events,
            final(self)@ == (TokenState { events: Seq::<Event>::empty(), ..old(self)@ }),
    {
        self.events.drain()
    }
}

} // verus!
