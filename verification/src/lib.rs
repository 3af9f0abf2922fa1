//! A guard for a token whose accounts are frozen by default. An admin keeps a
//! whitelist; while protections are enforced, only requests that a
//! whitelisted principal backs may thaw an account or move tokens between
//! accounts of which one is frozen. The guard never talks to the token
//! ledger itself: each operation hands out the calls to perform, in order.

pub mod account;
pub mod admin;
pub mod error;
pub mod freeze;
pub mod ledger;
pub mod pubkey;
pub mod whitelist;

pub use account::{GlobalInfo, GlobalState, MAX_ALLOWED_COUNT};
pub use admin::{
    initialize, transfer_freeze_authority, update_global_state, Initialize, TransferAuthority,
    UpdateGlobalState,
};
pub use error::VestingError;
pub use freeze::{
    freeze_token_account, thaw_token_account, transfer_with_unlock, FreezeTokenAccount,
    ThawTokenAccount, TransferWithUnlock,
};
pub use ledger::{AccountState, LedgerCall, LedgerError, TokenAccount};
pub use pubkey::Pubkey;
pub use whitelist::{add_to_whitelist, remove_from_whitelist, AddToWhitelist, RemoveFromWhitelist};
