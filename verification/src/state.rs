//! The token as a mathematical state, and what each operation does to it.
//!
//! The executable token is specified against this model: every operation
//! states which outcome it returns and which state it leaves behind as a
//! function of the state it found. The laws of the token are proved here,
//! once, on the model.

use vstd::prelude::*;
use crate::account::AccountId;
use crate::account::Balance;
use crate::error::Error;
use crate::events::Approval;
use crate::events::Event;
use crate::events::Transfer;
use crate::totals::amount_at;
use crate::totals::lemma_amount_le_total;
use crate::totals::lemma_total_empty;
use crate::totals::lemma_total_insert;
use crate::totals::total;

verus! {

/// Everything there is to know about a token at one moment.
pub struct TokenState {
    /// The number of units in existence.
    pub total_supply: Balance,
    /// The stored balances. An account without an entry holds nothing.
    pub balances: Map<AccountId, Balance>,
    /// The stored allowances, keyed by (owner, spender). A pair without an
    /// entry has been granted nothing.
    pub allowances: Map<(AccountId, AccountId), Balance>,
    /// The events emitted so far, oldest first.
    pub events: Seq<Event>,
}

/// One state-changing call, with the identity of its caller.
pub enum Call {
    Transfer { caller: AccountId, to: AccountId, value: Balance },
    Approve { caller: AccountId, spender: AccountId, value: Balance },
    TransferFrom { caller: AccountId, from: AccountId, to: AccountId, value: Balance },
}

impl TokenState {
    /// What `account` holds.
    pub open spec fn balance_of(self, account: AccountId) -> Balance {
        amount_at(self.balances, account)
    }

    /// What `spender` may still move on behalf of `owner`.
    pub open spec fn allowance(self, owner: AccountId, spender: AccountId) -> Balance {
        amount_at(self.allowances, (owner, spender))
    }

    /// Conservation of value: the balances add up to the total supply.
    pub open spec fn conserved(self) -> bool {
        &&& self.balances.dom().finite()
        &&& total(self.balances) == self.total_supply
    }

    /// The state right after construction: `deployer` holds the whole supply,
    /// nobody has been granted anything, and the creation of the supply has
    /// been announced.
    pub open spec fn genesis(deployer: AccountId, initial_supply: Balance) -> TokenState {
        TokenState {
            total_supply: initial_supply,
            balances: Map::<AccountId, Balance>::empty().insert(deployer, initial_supply),
            allowances: Map::<(AccountId, AccountId), Balance>::empty(),
            events: Seq::<Event>::empty().push(
                Event::Transfer(Transfer { from: None, to: Some(deployer), value: initial_supply }),
            ),
        }
    }

    /// The state after `value` has moved from `from` to `to` and the move has
    /// been announced. Moving value to oneself changes no balance.
    pub open spec fn moved(self, from: AccountId, to: AccountId, value: Balance) -> TokenState
        recommends
            value <= self.balance_of(from),
    {
        TokenState {
            balances: if from == to {
                self.balances.insert(from, self.balance_of(from))
            } else {
                self.balances.insert(from, (self.balance_of(from) - value) as Balance).insert(
                    to,
                    (self.balance_of(to) + value) as Balance,
                )
            },
            events: self.events.push(
                Event::Transfer(Transfer { from: Some(from), to: Some(to), value }),
            ),
            ..self
        }
    }

    /// Whether `caller` may transfer `value`: it must hold that much.
    pub open spec fn transfer_outcome(self, caller: AccountId, value: Balance) -> Result<
        (),
        Error,
    > {
        if self.balance_of(caller) < value {
            Err(Error::InsufficientBalance)
        } else {
            Ok(())
        }
    }

    /// The state after `caller` asked to transfer `value` to `to`.
    pub open spec fn after_transfer(
        self,
        caller: AccountId,
        to: AccountId,
        value: Balance,
    ) -> TokenState {
        if self.transfer_outcome(caller, value) is Ok {
            self.moved(caller, to, value)
        } else {
            self
        }
    }

    /// The state after `caller` set the allowance of `spender` to `value`.
    /// The previous allowance is replaced.
    pub open spec fn after_approve(
        self,
        caller: AccountId,
        spender: AccountId,
        value: Balance,
    ) -> TokenState {
        TokenState {
            allowances: self.allowances.insert((caller, spender), value),
            events: self.events.push(
                Event::Approval(Approval { owner: caller, spender, value }),
            ),
            ..self
        }
    }

    /// Whether `caller` may move `value` out of `from`: it must have been
    /// granted that much by `from`, and `from` must hold that much. The
    /// allowance is looked at first.
    pub open spec fn transfer_from_outcome(
        self,
        caller: AccountId,
        from: AccountId,
        value: Balance,
    ) -> Result<(), Error> {
        if self.allowance(from, caller) < value {
            Err(Error::InsufficientAllowance)
        } else if self.balance_of(from) < value {
            Err(Error::InsufficientBalance)
        } else {
            Ok(())
        }
    }

    /// The state after `caller` asked to move `value` from `from` to `to`.
    pub open spec fn after_transfer_from(
        self,
        caller: AccountId,
        from: AccountId,
        to: AccountId,
        value: Balance,
    ) -> TokenState {
        if self.transfer_from_outcome(caller, from, value) is Ok {
            TokenState {
                allowances: self.allowances.insert(
                    (from, caller),
                    (self.allowance(from, caller) - value) as Balance,
                ),
                ..self.moved(from, to, value)
            }
        } else {
            self
        }
    }

    /// The state after `call`.
    pub open spec fn after(self, call: Call) -> TokenState {
        match call {
            Call::Transfer { caller, to, value } => self.after_transfer(caller, to, value),
            Call::Approve { caller, spender, value } => self.after_approve(caller, spender, value),
            Call::TransferFrom { caller, from, to, value } => self.after_transfer_from(
                caller,
                from,
                to,
                value,
            ),
        }
    }

    /// The state after each of `calls` in turn.
    pub open spec fn after_all(self, calls: Seq<Call>) -> TokenState
        decreases calls.len(),
    {
        if calls.len() == 0 {
            self
        } else {
            self.after_all(calls.drop_last()).after(calls.last())
        }
    }

    /// A freshly constructed token conserves value.
    pub proof fn lemma_genesis_conserved(deployer: AccountId, initial_supply: Balance)
        ensures
            Self::genesis(deployer, initial_supply).conserved(),
    {
        lemma_total_empty::<AccountId>();
        lemma_total_insert(Map::<AccountId, Balance>::empty(), deployer, initial_supply);
    }

    /// While value is conserved, a receiving balance cannot overflow: what
    /// the receiver holds and what the sender is able to send are both part
    /// of the same total supply.
    pub proof fn lemma_receiver_has_room(self, from: AccountId, to: AccountId, value: Balance)
        requires
            self.conserved(),
            value <= self.balance_of(from),
            from != to,
        ensures
            self.balance_of(to) + value <= self.total_supply,
    {
        let debited = self.balances.insert(from, (self.balance_of(from) - value) as Balance);
        lemma_total_insert(self.balances, from, (self.balance_of(from) - value) as Balance);
        lemma_amount_le_total(debited, to);
    }

    /// Moving value that the sender holds creates and destroys nothing.
    pub proof fn lemma_moved_conserved(self, from: AccountId, to: AccountId, value: Balance)
        requires
            self.conserved(),
            value <= self.balance_of(from),
        ensures
            self.moved(from, to, value).conserved(),
    {
        if from == to {
            lemma_total_insert(self.balances, from, self.balance_of(from));
        } else {
            self.lemma_receiver_has_room(from, to, value);
            let debited = self.balances.insert(from, (self.balance_of(from) - value) as Balance);
            lemma_total_insert(self.balances, from, (self.balance_of(from) - value) as Balance);
            lemma_total_insert(debited, to, (self.balance_of(to) + value) as Balance);
        }
    }

    /// Conservation of value is kept by every call, accepted or rejected, and
    /// no call changes the total supply.
    pub proof fn lemma_call_conserved(self, call: Call)
        requires
            self.conserved(),
        ensures
            self.after(call).conserved(),
            self.after(call).total_supply == self.total_supply,
    {
        match call {
            Call::Transfer { caller, to, value } => {
                if self.transfer_outcome(caller, value) is Ok {
                    self.lemma_moved_conserved(caller, to, value);
                }
            },
            Call::Approve { caller, spender, value } => {},
            Call::TransferFrom { caller, from, to, value } => {
                if self.transfer_from_outcome(caller, from, value) is Ok {
                    self.lemma_moved_conserved(from, to, value);
                }
            },
        }
    }

    /// In every state that can be reached from construction, by any calls
    /// from any callers, the balances add up to the total supply, and the
    /// total supply is the one the token was constructed with.
    pub proof fn lemma_reachable_conserved(
        deployer: AccountId,
        initial_supply: Balance,
        calls: Seq<Call>,
    )
        ensures
            Self::genesis(deployer, initial_supply).after_all(calls).conserved(),
            Self::genesis(deployer, initial_supply).after_all(calls).total_supply
                == initial_supply,
        decreases calls.len(),
    {
        if calls.len() == 0 {
            Self::lemma_genesis_conserved(deployer, initial_supply);
        } else {
            Self::lemma_reachable_conserved(deployer, initial_supply, calls.drop_last());
            Self::genesis(deployer, initial_supply).after_all(
                calls.drop_last(),
            ).lemma_call_conserved(calls.last());
        }
    }

    /// A transfer of more than the caller holds is rejected and changes
    /// nothing: no balance, no allowance, no event. No balance is ever
    /// driven below zero.
    pub proof fn lemma_overdrawn_transfer_rejected(
        self,
        caller: AccountId,
        to: AccountId,
        value: Balance,
    )
        requires
            value > self.balance_of(caller),
        ensures
            self.transfer_outcome(caller, value) == Err::<(), Error>(Error::InsufficientBalance),
            self.after_transfer(caller, to, value) == self,
    {
    }

    /// A delegated transfer of more than the caller was granted, or of more
    /// than the owner holds, is rejected and changes nothing: no balance, no
    /// allowance, no event. No balance and no allowance is ever driven below
    /// zero.
    pub proof fn lemma_overdrawn_transfer_from_rejected(
        self,
        caller: AccountId,
        from: AccountId,
        to: AccountId,
        value: Balance,
    )
        requires
            value > self.allowance(from, caller) || value > self.balance_of(from),
        ensures
            self.transfer_from_outcome(caller, from, value) == (if value > self.allowance(
                from,
                caller,
            ) {
                Err::<(), Error>(Error::InsufficientAllowance)
            } else {
                Err::<(), Error>(Error::InsufficientBalance)
            }),
            self.after_transfer_from(caller, from, to, value) == self,
    {
    }

    /// An accepted transfer between two different accounts takes `value`
    /// from the sender, gives it to the receiver, and leaves every other
    /// balance and every allowance alone.
    pub proof fn lemma_transfer_moves_value(
        self,
        caller: AccountId,
        to: AccountId,
        value: Balance,
        other: AccountId,
    )
        requires
            self.conserved(),
            self.transfer_outcome(caller, value) is Ok,
            caller != to,
            other != caller,
            other != to,
        ensures
            self.after_transfer(caller, to, value).balance_of(caller) == self.balance_of(caller)
                - value,
            self.after_transfer(caller, to, value).balance_of(to) == self.balance_of(to) + value,
            self.after_transfer(caller, to, value).balance_of(other) == self.balance_of(other),
            self.after_transfer(caller, to, value).allowances == self.allowances,
    {
        self.lemma_receiver_has_room(caller, to, value);
    }

    /// An accepted delegated transfer uses up `value` of the allowance that
    /// the owner granted to the caller, and of no other allowance.
    pub proof fn lemma_transfer_from_spends_allowance(
        self,
        caller: AccountId,
        from: AccountId,
        to: AccountId,
        value: Balance,
        owner: AccountId,
        spender: AccountId,
    )
        requires
            self.transfer_from_outcome(caller, from, value) is Ok,
        ensures
            self.after_transfer_from(caller, from, to, value).allowance(from, caller)
                == self.allowance(from, caller) - value,
            (owner, spender) != (from, caller) ==> self.after_transfer_from(
                caller,
                from,
                to,
                value,
            ).allowance(owner, spender) == self.allowance(owner, spender),
            self.after_transfer_from(caller, from, to, value).balances == self.moved(
                from,
                to,
                value,
            ).balances,
    {
    }

    /// Value leaves an account only by a transfer that the account itself
    /// called, or by a delegated transfer within the allowance that the
    /// account granted to the caller; and what leaves is exactly the value of
    /// the call.
    pub proof fn lemma_no_unauthorized_movement(self, call: Call, account: AccountId)
        requires
            self.conserved(),
            self.after(call).balance_of(account) < self.balance_of(account),
        ensures
            match call {
                Call::Transfer { caller, to, value } => {
                    &&& caller == account
                    &&& self.after(call).balance_of(account) == self.balance_of(account) - value
                },
                Call::Approve { caller, spender, value } => false,
                Call::TransferFrom { caller, from, to, value } => {
                    &&& from == account
                    &&& value <= self.allowance(account, caller)
                    &&& self.after(call).balance_of(account) == self.balance_of(account) - value
                },
            },
    {
        match call {
            Call::Transfer { caller, to, value } => {
                if self.transfer_outcome(caller, value) is Ok && caller != to {
                    self.lemma_receiver_has_room(caller, to, value);
                }
            },
            Call::Approve { caller, spender, value } => {},
            Call::TransferFrom { caller, from, to, value } => {
                if self.transfer_from_outcome(caller, from, value) is Ok && from != to {
                    self.lemma_receiver_has_room(from, to, value);
                }
            },
        }
    }

    /// An allowance changes only when its owner approves, or when its spender
    /// uses it in a delegated transfer.
    pub proof fn lemma_allowance_changed_by_its_parties(
        self,
        call: Call,
        owner: AccountId,
        spender: AccountId,
    )
        requires
            self.after(call).allowance(owner, spender) != self.allowance(owner, spender),
        ensures
            match call {
                Call::Transfer { caller, to, value } => false,
                Call::Approve { caller, spender: approved, value } => {
                    &&& caller == owner
                    &&& approved == spender
                    &&& self.after(call).allowance(owner, spender) == value
                },
                Call::TransferFrom { caller, from, to, value } => {
                    &&& caller == spender
                    &&& from == owner
                    &&& self.after(call).allowance(owner, spender) == self.allowance(owner, spender)
                        - value
                },
            },
    {
    }

    /// An approval replaces the allowance of the pair; it does not add to it,
    /// and it touches no other allowance and no balance.
    pub proof fn lemma_approve_overwrites(
        self,
        caller: AccountId,
        spender: AccountId,
        value: Balance,
        owner: AccountId,
        other: AccountId,
    )
        ensures
            self.after_approve(caller, spender, value).allowance(caller, spender) == value,
            (owner, other) != (caller, spender) ==> self.after_approve(
                caller,
                spender,
                value,
            ).allowance(owner, other) == self.allowance(owner, other),
            self.after_approve(caller, spender, value).balances == self.balances,
    {
    }
}

} // verus!
