//! A ledger of fighters: who owns which fighter, checked on every change.

pub mod error;
pub mod event;
pub mod fighter;
pub mod identity;
pub mod laws;
pub mod ledger;
pub mod pallet;
pub mod rules;

pub use error::Error;
pub use event::Event;
pub use fighter::{Fighter, FighterIndex};
pub use pallet::Pallet;
pub use rules::GetDefaultValue;
