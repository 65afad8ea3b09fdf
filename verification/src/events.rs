//! The events that operations emit, and the log that collects them.

use vstd::prelude::*;
use crate::account::AccountId;
use crate::account::Balance;

verus! {

/// Value moved between accounts. At construction the whole supply is
/// created out of nothing, so `from` is `None` there.
#[derive(Debug, Clone, Copy, PartialEq, Eq)]
pub struct Transfer {
    pub from: Option<AccountId>,
    pub to: Option<AccountId>,
    pub value: Balance,
}

/// An owner set the amount that a spender may move on its behalf.
#[derive(Debug, Clone, Copy, PartialEq, Eq)]
pub struct Approval {
    pub owner: AccountId,
    pub spender: AccountId,
    pub value: Balance,
}

/// Anything the token emits.
#[derive(Debug, Clone, Copy, PartialEq, Eq)]
pub enum Event {
    Transfer(Transfer),
    Approval(Approval),
}

/// An append-only record of emitted events, oldest first.
///
/// The log is kept apart from the balances and allowances: recording an
/// event never changes them, and they never depend on the log.
pub struct EventLog {
    entries: Vec<Event>,
}

impl View for EventLog {
    type V = Seq<Event>;

    closed spec fn view(&self) -> Seq<Event> {
        self.entries@
    }
}

impl EventLog {
    /// A log with nothing in it.
    pub fn new() -> (log: Self)
        ensures
            log@ == Seq::<Event>::empty(),
    {
        EventLog { entries: Vec::new() }
    }

    /// Appends `event` to the log.
    pub fn record(&mut self, event: Event)
        ensures
            final(self)@ == old(self)@.push(event),
    {
        self.entries.push(event);
    }

    /// The recorded events, oldest first.
    pub fn entries(&self) -> (entries: &Vec<Event>)
        ensures
            entries@ == self@,
    {
        &self.entries
    }

    /// Hands out the recorded events, oldest first, and leaves the log empty.
    pub fn drain(&mut self) -> (taken: Vec<Event>)
        ensures
            taken@ == old(self)@,
            final(self)@ == Seq::<Event>::empty(),
    {
        let mut taken: Vec<Event> = Vec::new();
        core::mem::swap(&mut self.entries, &mut taken);
        taken
    }
}

} // verus!
