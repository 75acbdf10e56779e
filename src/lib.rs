//! A fungible-token ledger with approve / delegated-transfer semantics, and a
//! single-owner access guard, both verified against functional models.

mod account;
mod error;
mod events;
mod table;
mod model;
mod storage;
mod engine;
mod env;
mod owner;
mod token;
mod saturating;
mod swap;

pub use account::AccountId;
pub use error::Error;
pub use events::{Erc20Event, OwnershipTransferred};
pub use model::{Erc20Message, Erc20Model};
pub use storage::{Erc20, Erc20EventEmit, Erc20Storage};
pub use engine::{
    law_approve_overwrites, law_replay_deterministic, law_transfer_conserves,
    law_transfer_from_gated, law_transfer_rejects, lemma_covered_transfer_fits, supply_holds,
    Erc20Impl,
};
pub use env::{CallEnv, EnvAccess};
pub use owner::{
    guard_of, law_renounce_is_terminal, lemma_unowned_refuses_all, Data, EventEmit, Impl, Module,
    Owner, OwnerMessage, OwnerModel,
};
pub use saturating::{clamp, Saturating};
pub use swap::ERC20Swap;
