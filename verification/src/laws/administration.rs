//! What the configuration holds after it was written.

use vstd::prelude::*;

use crate::config::{AdminOnly, GlobalConfig, InitializeGlobal, UpdateGlobal};
use crate::errors::CurveError;
use crate::pubkey::Pubkey;

verus! {

/// A fee and a target are accepted exactly when the fee is at most 500 basis points
/// and the target is not zero; the fee is looked at first.
pub proof fn settings_are_decided(fee_bps: u16, target_cap: u64)
    ensures
        ({
            let e = crate::config::settings_error(fee_bps, target_cap);
            &&& e is None <==> fee_bps <= 500 && target_cap > 0
            &&& e == Some(CurveError::FeeTooHigh) <==> fee_bps > 500
            &&& e == Some(CurveError::InvalidAmount) <==> fee_bps <= 500 && target_cap == 0
        }),
{
}

/// A new configuration holds what was passed in: the signer as admin, the fee
/// recipient, the fee, the target and the mints as they were given. The stablecoin
/// target is 69,000 units, and the program is running.
pub proof fn configurations_hold_what_was_asked(
    i: InitializeGlobal,
    fee_bps: u16,
    target_cap: u64,
    usdc_mint: Pubkey,
    usdt_mint: Pubkey,
)
    ensures
        ({
            let g = i.initialized(fee_bps, target_cap, usdc_mint, usdt_mint);
            &&& g.admin == i.admin
            &&& g.fee_recipient == i.fee_recipient
            &&& g.fee_bps == fee_bps
            &&& g.target_cap == target_cap
            &&& g.target_cap_usdc == 69_000_000_000
            &&& !g.paused
            &&& g.usdc_mint == usdc_mint
            &&& g.usdt_mint == usdt_mint
        }),
{
}

/// Two different requests never lead to the same configuration.
pub proof fn configurations_tell_requests_apart(
    i: InitializeGlobal,
    j: InitializeGlobal,
    fee_i: u16,
    fee_j: u16,
    cap_i: u64,
    cap_j: u64,
    usdc_i: Pubkey,
    usdc_j: Pubkey,
    usdt_i: Pubkey,
    usdt_j: Pubkey,
)
    requires
        i.initialized(fee_i, cap_i, usdc_i, usdt_i) == j.initialized(
            fee_j,
            cap_j,
            usdc_j,
            usdt_j,
        ),
    ensures
        i.admin == j.admin,
        i.fee_recipient == j.fee_recipient,
        fee_i == fee_j,
        cap_i == cap_j,
        usdc_i == usdc_j,
        usdt_i == usdt_j,
{
}

/// An update is accepted exactly when the admin asks for it, the fee is at most 500
/// basis points and the target is not zero. A stranger is told so first.
pub proof fn updates_are_decided(u: UpdateGlobal, fee_bps: u16, target_cap: u64)
    ensures
        ({
            let e = u.update_error(fee_bps, target_cap);
            let by_admin = u.admin@ == u.global_config.admin@;
            &&& e is None <==> by_admin && fee_bps <= 500 && target_cap > 0
            &&& e == Some(CurveError::Unauthorized) <==> !by_admin
            &&& e == Some(CurveError::FeeTooHigh) <==> by_admin && fee_bps > 500
            &&& e == Some(CurveError::InvalidAmount) <==> by_admin && fee_bps <= 500
                && target_cap == 0
        }),
{
}

/// An update holds what was passed in and keeps the admin, the stablecoin target and
/// the pause as they were.
pub proof fn updates_hold_what_was_asked(
    u: UpdateGlobal,
    fee_bps: u16,
    target_cap: u64,
    fee_recipient: Pubkey,
    usdc_mint: Pubkey,
    usdt_mint: Pubkey,
)
    ensures
        ({
            let g = u.updated(fee_bps, target_cap, fee_recipient, usdc_mint, usdt_mint);
            &&& g.fee_bps == fee_bps
            &&& g.target_cap == target_cap
            &&& g.fee_recipient == fee_recipient
            &&& g.usdc_mint == usdc_mint
            &&& g.usdt_mint == usdt_mint
            &&& g.admin == u.global_config.admin
            &&& g.target_cap_usdc == u.global_config.target_cap_usdc
            &&& g.paused == u.global_config.paused
        }),
{
}

/// Toggling the pause turns it over, for the admin and nobody else, and touches
/// nothing but the pause.
pub proof fn toggling_turns_the_pause_over(t: AdminOnly)
    ensures
        t.authorized() <==> t.admin@ == t.global_config.admin@,
        ({
            let g = t.toggled().global_config;
            let c = t.global_config;
            &&& g.paused != c.paused
            &&& g.admin == c.admin
            &&& g.fee_recipient == c.fee_recipient
            &&& g.fee_bps == c.fee_bps
            &&& g.target_cap == c.target_cap
            &&& g.target_cap_usdc == c.target_cap_usdc
            &&& g.usdc_mint == c.usdc_mint
            &&& g.usdt_mint == c.usdt_mint
            &&& t.toggled().admin == t.admin
        }),
{
}

/// A configuration counts as sound exactly when its fee is at most 500 basis points
/// and its target is not zero, so that what the instructions accept is sound.
pub proof fn accepted_settings_are_sound(g: GlobalConfig)
    ensures
        g.wf() <==> g.fee_bps <= 500 && g.target_cap > 0,
        g.wf() <==> crate::config::settings_error(g.fee_bps, g.target_cap) is None,
{
}

} // verus!
