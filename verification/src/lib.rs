//! A fungible-token ledger with delegated spending.
//!
//! The ledger tracks a fixed total supply of indivisible units across opaque
//! account identifiers. Every operation is a single check-then-mutate
//! transition; the identity of the caller is an explicit argument, and the
//! events an operation emits are appended to an inspectable log.

pub mod account;
pub mod allowances;
pub mod erc20;
pub mod error;
pub mod events;
pub mod ledger;
pub mod state;
pub mod table;
pub mod totals;

pub use account::AccountId;
pub use account::Balance;
pub use allowances::AllowanceRegistry;
pub use erc20::Erc20;
pub use error::Error;
pub use events::Approval;
pub use events::Event;
pub use events::EventLog;
pub use events::Transfer;
pub use ledger::BalanceOverflow;
pub use ledger::Ledger;
pub use state::Call;
pub use state::TokenState;
