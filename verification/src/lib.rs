//! A minimal fungible-balance ledger: a total-issuance counter and a map from
//! account to balance, changed only by minting and by transfers.
//!
//! * [`ledger`] is the mathematical model: the state, and the two calls as
//!   functions of the state.
//! * [`laws`] proves what the calls keep: refused calls change nothing, and
//!   the balances add up to total issuance.
//! * [`storage`] holds the two storage cells in memory.
//! * [`origin`] tells a signed caller from any other.
//! * [`pallet`] is the ledger itself: configuration, storage, and the two
//!   dispatchable calls.

pub mod error;
pub mod laws;
pub mod ledger;
pub mod origin;
pub mod pallet;
pub mod storage;

pub use error::Error;
pub use ledger::{Balance, Call, Ledger};
pub use origin::Origin;
pub use pallet::{Config, Pallet};
pub use storage::Storage;
