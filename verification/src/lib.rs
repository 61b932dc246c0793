//! The state machine of a bonding-curve launchpad.
//!
//! A pool sells a fixed token supply against SOL along a constant-product curve
//! with virtual reserves. Each instruction is a function on plain values: it
//! checks the request, moves the on-chain records to their next state, and
//! returns the account operations that have to be carried out for it.

pub mod actions;
pub mod config;
pub mod constants;
pub mod curve;
pub mod errors;
pub mod laws;
pub mod migration;
pub mod pubkey;
pub mod trade;

pub use actions::{Action, Signing};
pub use config::{
    initialize_global, toggle_pause, update_global, AdminOnly, GlobalConfig, InitializeGlobal,
    UpdateGlobal,
};
pub use constants::{
    CURVE_ACCOUNT_SIZE, FEE_BPS_DEFAULT, GLOBAL_CONFIG_SIZE, METADATA_URI_MAX_LEN,
    TARGET_SOL_DEFAULT, TARGET_USDC_DEFAULT, TOTAL_TOKEN_SUPPLY, VIRTUAL_SOL_RESERVE,
    VIRTUAL_TOKEN_RESERVE,
};
pub use curve::{create_pool, BondingCurve, CreatePool, PoolBumps, QuoteType};
pub use errors::CurveError;
pub use migration::{migrate, Migrate};
pub use pubkey::Pubkey;
pub use trade::{buy, sell, BuySell, Fill};
