//! How a pool begins and how it is handed over.

use vstd::prelude::*;

use crate::actions::{Action, Signing};
use crate::curve::{BondingCurve, CreatePool, QuoteType};
use crate::errors::CurveError;
use crate::migration::Migrate;

verus! {

/// A request for a pool is accepted exactly when the program runs, the URI has at
/// most 200 bytes, and the quote currency is SOL or a stablecoin whose configured
/// mint was passed. Otherwise the first of these that fails is the reason given.
pub proof fn pool_requests_are_decided(p: CreatePool, metadata_uri: String, quote_type: u8)
    ensures
        ({
            let e = p.create_error(metadata_uri, quote_type);
            let running = !p.global_config.paused;
            let short = running && vstd::utf8::encode_utf8(metadata_uri@).len() <= 200;
            let right_mint = {
                ||| quote_type == 0
                ||| quote_type == 1 && p.quote_mint@ == p.global_config.usdc_mint@
                ||| quote_type == 2 && p.quote_mint@ == p.global_config.usdt_mint@
            };
            &&& e == Some(CurveError::ProgramPaused) <==> !running
            &&& e == Some(CurveError::MetadataUriTooLong) <==> running && !short
            &&& e == Some(CurveError::InvalidQuoteType) <==> short && quote_type > 2
            &&& e == Some(CurveError::InvalidQuoteMint) <==> short && quote_type <= 2
                && !right_mint
            &&& e is None <==> short && right_mint
        }),
{
}

/// For a SOL pool the quote mint plays no part: whatever address is passed for it,
/// the request is decided alike, and accepted where the program runs and the URI
/// fits.
pub proof fn sol_pools_ignore_the_quote_mint(p: CreatePool, r: CreatePool, metadata_uri: String)
    requires
        p.global_config.paused == r.global_config.paused,
    ensures
        p.create_error(metadata_uri, 0) == r.create_error(metadata_uri, 0),
        !p.global_config.paused && vstd::utf8::encode_utf8(metadata_uri@).len() <= 200
            ==> p.create_error(metadata_uri, 0) is None,
{
}

/// Whatever is decided about a pool depends on nothing but the pause, the URI, the
/// quote currency and its mints.
pub proof fn pool_requests_depend_on_little(
    p: CreatePool,
    r: CreatePool,
    metadata_uri: String,
    other_uri: String,
    quote_type: u8,
)
    requires
        p.global_config.paused == r.global_config.paused,
        p.global_config.usdc_mint@ == r.global_config.usdc_mint@,
        p.global_config.usdt_mint@ == r.global_config.usdt_mint@,
        p.quote_mint@ == r.quote_mint@,
        metadata_uri@ == other_uri@,
    ensures
        p.create_error(metadata_uri, quote_type) == r.create_error(other_uri, quote_type),
{
}

/// A new pool belongs to the mint and the creator that asked for it, starts at 30
/// SOL to 1.073 billion tokens with the whole billion left to sell, has raised and
/// collected nothing, and keeps the time, the quote currency and the URI that came
/// with the request.
pub proof fn new_pools_start_alike(
    p: CreatePool,
    curve: BondingCurve,
    metadata_uri: String,
    quote_type: u8,
    now: i64,
)
    requires
        p.create_error(metadata_uri, quote_type) is None,
        p.is_created(curve, metadata_uri, quote_type, now),
    ensures
        curve.mint == p.mint,
        curve.creator == p.creator,
        curve.virtual_sol_reserves == 30_000_000_000,
        curve.virtual_token_reserves == 1_073_000_000_000_000,
        curve.real_sol_reserves == 0,
        curve.real_token_reserves == 1_000_000_000_000_000,
        !curve.complete,
        curve.total_fees_collected == 0,
        curve.created_at == now,
        curve.quote_type == QuoteType::Sol <==> quote_type == 0,
        curve.quote_type == QuoteType::Usdc <==> quote_type == 1,
        curve.quote_type == QuoteType::Usdt <==> quote_type == 2,
        curve.quote_type == QuoteType::Sol ==> curve.quote_mint@.len() == 32 && forall|i: int|
            0 <= i < 32 ==> curve.quote_mint@[i] == 0,
        curve.quote_type == QuoteType::Usdc ==> curve.quote_mint@ == p.global_config.usdc_mint@,
        curve.quote_type == QuoteType::Usdt ==> curve.quote_mint@ == p.global_config.usdt_mint@,
        curve.metadata_uri@ == metadata_uri@,
{
}

/// A curve counts as sound exactly when its virtual reserves lie 30 SOL and 73 million
/// tokens above the real ones, a SOL curve has the null address for its quote mint,
/// and the URI has at most 200 bytes.
pub proof fn sound_curves(c: BondingCurve)
    ensures
        c.wf() <==> {
            &&& c.virtual_sol_reserves == c.real_sol_reserves + 30_000_000_000
            &&& c.virtual_token_reserves == c.real_token_reserves + 73_000_000_000_000
            &&& c.quote_type == QuoteType::Sol ==> forall|i: int|
                0 <= i < 32 ==> c.quote_mint@[i] == 0
            &&& vstd::utf8::encode_utf8(c.metadata_uri@).len() <= 200
        },
{
    if forall|i: int| 0 <= i < 32 ==> c.quote_mint@[i] == 0 {
        assert(c.quote_mint@ =~= crate::pubkey::null_key());
    }
}

/// A new pool is funded in three steps: the creator pays for the SOL vault, an empty
/// account of the system program; one billion tokens are minted into the vault of
/// the curve; the curve gives up the right to mint.
pub proof fn new_pools_are_funded(p: CreatePool, actions: Seq<Action>, vault_rent: u64)
    requires
        p.is_funding(actions, vault_rent),
    ensures
        ({
            let vault = actions[0];
            let supply = actions[1];
            let revocation = actions[2];
            let curve_signs = Signing::Curve { mint: p.mint, bump: p.bumps.bonding_curve };
            &&& actions.len() == 3
            &&& vault is CreateAccount
            &&& vault->CreateAccount_from == p.creator
            &&& vault->CreateAccount_to == p.sol_vault
            &&& vault->CreateAccount_lamports == vault_rent
            &&& vault->space == 0
            &&& vault->owner@.len() == 32
            &&& forall|i: int| 0 <= i < 32 ==> vault->owner@[i] == 0
            &&& vault->CreateAccount_signing == (Signing::Vault { mint: p.mint, bump: p.bumps.sol_vault })
            &&& supply is MintTokens
            &&& supply->MintTokens_mint == p.mint
            &&& supply->MintTokens_to == p.curve_token_account
            &&& supply->MintTokens_authority == p.bonding_curve_key
            &&& supply->MintTokens_amount == 1_000_000_000_000_000
            &&& supply->MintTokens_signing == curve_signs
            &&& revocation is RevokeMintAuthority
            &&& revocation->RevokeMintAuthority_mint == p.mint
            &&& revocation->RevokeMintAuthority_authority == p.bonding_curve_key
            &&& revocation->RevokeMintAuthority_signing == curve_signs
        }),
{
}

/// A migration is accepted exactly when the admin asks for it and the pool has
/// graduated, whatever else the records hold. A stranger is told so first.
pub proof fn migrations_are_decided(m: Migrate)
    ensures
        ({
            let e = m.migrate_error();
            let by_admin = m.admin@ == m.global_config.admin@;
            &&& e is None <==> by_admin && m.bonding_curve.complete
            &&& e == Some(CurveError::Unauthorized) <==> !by_admin
            &&& e == Some(CurveError::CurveNotComplete) <==> by_admin
                && !m.bonding_curve.complete
        }),
{
}

/// The operations of a migration: one for each vault that holds anything, SOL first,
/// each over the whole balance, from the vault to the account of the migration wallet
/// and signed by the program for the mint.
pub proof fn migrations_are_settled(m: Migrate)
    ensures
        ({
            let actions = m.migrate_actions();
            let sol_steps: int = if m.sol_balance > 0 {
                1
            } else {
                0
            };
            let token_steps: int = if m.token_balance > 0 {
                1
            } else {
                0
            };
            &&& actions.len() == sol_steps + token_steps
            &&& m.sol_balance > 0 ==> {
                let sol = actions[0];
                &&& sol is TransferSol
                &&& sol->TransferSol_from == m.sol_vault
                &&& sol->TransferSol_to == m.migration_wallet
                &&& sol->TransferSol_lamports == m.sol_balance
                &&& sol->TransferSol_signing == (Signing::Vault {
                    mint: m.mint,
                    bump: m.bumps.sol_vault,
                })
            }
            &&& m.token_balance > 0 ==> {
                let tokens = actions[sol_steps];
                &&& tokens is TransferTokens
                &&& tokens->TransferTokens_from == m.curve_token_account
                &&& tokens->TransferTokens_to == m.migration_token_account
                &&& tokens->TransferTokens_authority == m.bonding_curve_key
                &&& tokens->TransferTokens_amount == m.token_balance
                &&& tokens->TransferTokens_signing == (Signing::Curve {
                    mint: m.mint,
                    bump: m.bumps.bonding_curve,
                })
            }
        }),
{
}

} // verus!
