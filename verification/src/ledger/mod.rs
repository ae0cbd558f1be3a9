//! Double-entry accounting of the wallets' bitcoin movements.
pub mod constants;
pub mod template;
pub mod templates;
pub mod wallet_accounts;
pub mod entries;
pub mod error;
pub mod accounts;
pub mod event;
pub mod postings;
