//! Wallet-link registry and transfer-hook fee engine for a ledger token.
//!
//! The crate holds the rules of two on-chain modules as functions on plain
//! values: the registry that links a user wallet to a school wallet, and the
//! token whose transfer hook splits every transfer into an operations fee, a
//! burn and an institution fee. The host runtime (account storage, signature
//! checks, the clock, program invocation) stays outside; it hands the library
//! addresses, bytes and integers and carries out the actions it returns.

pub mod address;
pub mod bytes;
pub mod config;
pub mod error;
pub mod fees;
pub mod hook;
pub mod instruction;
pub mod pda;
pub mod resolution;
pub mod setup;
pub mod table;
pub mod user_link;
pub mod wire;

pub use error::ErrorCode;
pub use user_link::{
    initialize_user_link, remove_school_link, update_school_wallet, InitializeUserLink,
    SchoolLinkRemoved, SchoolWalletUpdated, UpdateUserLink, UserLink, UserLinkCreated,
};
