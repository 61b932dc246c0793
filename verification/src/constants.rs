//! Parameters of the curve and sizes of the on-chain records.

use vstd::prelude::*;

verus! {

/// Virtual SOL reserve of a new curve: 30 SOL in lamports.
pub const VIRTUAL_SOL_RESERVE: u64 = 30_u64 * 1_000_000_000_u64;

/// Virtual token reserve of a new curve: 1.073 billion tokens with 6 decimals.
pub const VIRTUAL_TOKEN_RESERVE: u64 = 1_073_000_000_u64 * 1_000_000_u64;

/// Tokens minted for a curve: 1 billion tokens with 6 decimals.
pub const TOTAL_TOKEN_SUPPLY: u64 = 1_000_000_000_u64 * 1_000_000_u64;

/// Suggested graduation target of a SOL curve: 85 SOL in lamports.
pub const TARGET_SOL_DEFAULT: u64 = 85_u64 * 1_000_000_000_u64;

/// Graduation target of a stablecoin curve: 69,000 units with 6 decimals.
pub const TARGET_USDC_DEFAULT: u64 = 69_000_u64 * 1_000_000_u64;

/// Suggested platform fee: 1.00%.
pub const FEE_BPS_DEFAULT: u64 = 100_u64;

/// Highest platform fee that a configuration may hold: 5.00%.
pub const FEE_BPS_MAX: u16 = 500;

/// Basis points in one whole.
pub const BPS_DENOMINATOR: u64 = 10_000;

/// Longest metadata URI that a pool stores, in bytes.
pub const METADATA_URI_MAX_LEN: usize = 200;

/// Size of the configuration account: discriminator, admin, fee_recipient,
/// fee_bps, target_cap, target_cap_usdc, paused, usdc_mint, usdt_mint.
pub const GLOBAL_CONFIG_SIZE: usize = 8 + 32 + 32 + 2 + 8 + 8 + 1 + 32 + 32;

/// Size of a curve account: discriminator, mint, creator, the four reserves,
/// complete, total_fees_collected, created_at, quote_type, quote_mint,
/// metadata_uri with its length prefix, and room for a creator fee and a
/// migration wallet.
pub const CURVE_ACCOUNT_SIZE: usize = 8 + 32 + 32 + 8 + 8 + 8 + 8 + 1 + 8 + 8 + 1 + 32 + 4
    + METADATA_URI_MAX_LEN + 8 + 32;

} // verus!
