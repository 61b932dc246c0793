//! The global configuration and the instructions that write it.

use vstd::prelude::*;

use crate::constants::{FEE_BPS_MAX, TARGET_USDC_DEFAULT};
use crate::errors::CurveError;
use crate::pubkey::Pubkey;

verus! {

/// The settings that every pool shares.
#[derive(Clone, Copy, Debug, PartialEq, Eq)]
pub struct GlobalConfig {
    /// Who may change the settings and migrate pools.
    pub admin: Pubkey,
    /// Who receives the platform fees.
    pub fee_recipient: Pubkey,
    /// The platform fee in basis points (100 = 1%).
    pub fee_bps: u16,
    /// The graduation target of SOL curves, in lamports.
    pub target_cap: u64,
    /// The graduation target of stablecoin curves, in units of 6 decimals.
    pub target_cap_usdc: u64,
    /// Whether trading and the creation of pools are stopped.
    pub paused: bool,
    /// The mint of USDC.
    pub usdc_mint: Pubkey,
    /// The mint of USDT.
    pub usdt_mint: Pubkey,
}

/// What is wrong with a fee and a graduation target, if anything is.
pub open spec fn settings_error(fee_bps: u16, target_cap: u64) -> Option<CurveError> {
    if fee_bps > FEE_BPS_MAX {
        Some(CurveError::FeeTooHigh)
    } else if target_cap == 0 {
        Some(CurveError::InvalidAmount)
    } else {
        None
    }
}

impl GlobalConfig {
    /// Holds of every configuration that the instructions write: the fee is at
    /// most 5% and there is a graduation target.
    pub open spec fn wf(self) -> bool {
        &&& self.fee_bps <= FEE_BPS_MAX
        &&& self.target_cap > 0
    }
}

fn check_settings(fee_bps: u16, target_cap: u64) -> (r: Result<(), CurveError>)
    ensures
        r is Ok <==> settings_error(fee_bps, target_cap) is None,
        r matches Err(e) ==> settings_error(fee_bps, target_cap) == Some(e),
{
    if fee_bps > FEE_BPS_MAX {
        return Err(CurveError::FeeTooHigh);
    }
    if target_cap == 0 {
        return Err(CurveError::InvalidAmount);
    }
    Ok(())
}

/// The accounts of [`initialize_global`].
#[derive(Clone, Copy, Debug, PartialEq, Eq)]
pub struct InitializeGlobal {
    /// The new configuration account.
    pub global_config: GlobalConfig,
    /// The signer, who becomes the admin.
    pub admin: Pubkey,
    /// The account that will receive the fees.
    pub fee_recipient: Pubkey,
}

impl InitializeGlobal {
    /// The configuration that [`initialize_global`] writes.
    pub open spec fn initialized(
        self,
        fee_bps: u16,
        target_cap: u64,
        usdc_mint: Pubkey,
        usdt_mint: Pubkey,
    ) -> GlobalConfig {
        GlobalConfig {
            admin: self.admin,
            fee_recipient: self.fee_recipient,
            fee_bps,
            target_cap,
            target_cap_usdc: TARGET_USDC_DEFAULT,
            paused: false,
            usdc_mint,
            usdt_mint,
        }
    }
}

/// Sets up the configuration. The signer becomes the admin, and trading is open.
/// Refused where the fee is over 5% or the target is zero.
pub fn initialize_global(
    accounts: &mut InitializeGlobal,
    fee_bps: u16,
    target_cap: u64,
    usdc_mint: Pubkey,
    usdt_mint: Pubkey,
) -> (r: Result<(), CurveError>)
    ensures
        r is Ok <==> settings_error(fee_bps, target_cap) is None,
        r matches Err(e) ==> settings_error(fee_bps, target_cap) == Some(e) && *final(accounts)
            == *old(accounts),
        r is Ok ==> final(accounts).global_config == old(accounts).initialized(
            fee_bps,
            target_cap,
            usdc_mint,
            usdt_mint,
        ),
        r is Ok ==> {
            let g = final(accounts).global_config;
            &&& g.wf()
            &&& g.admin == old(accounts).admin
            &&& g.fee_recipient == old(accounts).fee_recipient
            &&& g.fee_bps == fee_bps
            &&& g.target_cap == target_cap
            &&& g.target_cap_usdc == 69_000_000_000
            &&& !g.paused
            &&& g.usdc_mint == usdc_mint
            &&& g.usdt_mint == usdt_mint
        },
        r is Ok <==> fee_bps <= 500 && target_cap > 0,
        final(accounts).admin == old(accounts).admin,
        final(accounts).fee_recipient == old(accounts).fee_recipient,
{
    match check_settings(fee_bps, target_cap) {
        Err(e) => return Err(e),
        Ok(()) => {},
    }
    accounts.global_config = GlobalConfig {
        admin: accounts.admin,
        fee_recipient: accounts.fee_recipient,
        fee_bps,
        target_cap,
        target_cap_usdc: TARGET_USDC_DEFAULT,
        paused: false,
        usdc_mint,
        usdt_mint,
    };
    Ok(())
}

/// The accounts of [`update_global`].
#[derive(Clone, Copy, Debug, PartialEq, Eq)]
pub struct UpdateGlobal {
    pub global_config: GlobalConfig,
    /// The signer.
    pub admin: Pubkey,
}

impl UpdateGlobal {
    /// Why [`update_global`] refuses, if it does: the signer has to be the admin,
    /// and the settings have to be sound.
    pub open spec fn update_error(self, new_fee_bps: u16, new_target_cap: u64) -> Option<
        CurveError,
    > {
        if self.global_config.admin@ != self.admin@ {
            Some(CurveError::Unauthorized)
        } else {
            settings_error(new_fee_bps, new_target_cap)
        }
    }

    /// The configuration that [`update_global`] writes.
    pub open spec fn updated(
        self,
        new_fee_bps: u16,
        new_target_cap: u64,
        new_fee_recipient: Pubkey,
        new_usdc_mint: Pubkey,
        new_usdt_mint: Pubkey,
    ) -> GlobalConfig {
        GlobalConfig {
            fee_bps: new_fee_bps,
            target_cap: new_target_cap,
            fee_recipient: new_fee_recipient,
            usdc_mint: new_usdc_mint,
            usdt_mint: new_usdt_mint,
            ..self.global_config
        }
    }
}

/// Changes the fee, the SOL target, the fee recipient and the stablecoin mints.
/// Admin only.
pub fn update_global(
    accounts: &mut UpdateGlobal,
    new_fee_bps: u16,
    new_target_cap: u64,
    new_fee_recipient: Pubkey,
    new_usdc_mint: Pubkey,
    new_usdt_mint: Pubkey,
) -> (r: Result<(), CurveError>)
    ensures
        r is Ok <==> old(accounts).update_error(new_fee_bps, new_target_cap) is None,
        r matches Err(e) ==> old(accounts).update_error(new_fee_bps, new_target_cap) == Some(e)
            && *final(accounts) == *old(accounts),
        r is Ok ==> final(accounts).global_config == (GlobalConfig {
            fee_bps: new_fee_bps,
            target_cap: new_target_cap,
            fee_recipient: new_fee_recipient,
            usdc_mint: new_usdc_mint,
            usdt_mint: new_usdt_mint,
            ..old(accounts).global_config
        }),
        r is Ok ==> final(accounts).global_config == old(accounts).updated(
            new_fee_bps,
            new_target_cap,
            new_fee_recipient,
            new_usdc_mint,
            new_usdt_mint,
        ),
        r is Ok ==> final(accounts).global_config.wf(),
        r is Ok <==> old(accounts).admin@ == old(accounts).global_config.admin@ && new_fee_bps
            <= 500 && new_target_cap > 0,
        final(accounts).admin == old(accounts).admin,
{
    if !accounts.global_config.admin.same(&accounts.admin) {
        return Err(CurveError::Unauthorized);
    }
    match check_settings(new_fee_bps, new_target_cap) {
        Err(e) => return Err(e),
        Ok(()) => {},
    }
    accounts.global_config.fee_bps = new_fee_bps;
    accounts.global_config.target_cap = new_target_cap;
    accounts.global_config.fee_recipient = new_fee_recipient;
    accounts.global_config.usdc_mint = new_usdc_mint;
    accounts.global_config.usdt_mint = new_usdt_mint;
    Ok(())
}

/// The accounts of [`toggle_pause`].
#[derive(Clone, Copy, Debug, PartialEq, Eq)]
pub struct AdminOnly {
    pub global_config: GlobalConfig,
    /// The signer.
    pub admin: Pubkey,
}

impl AdminOnly {
    /// Whether the signer is the admin.
    pub open spec fn authorized(self) -> bool {
        self.global_config.admin@ == self.admin@
    }

    /// The accounts after [`toggle_pause`].
    pub open spec fn toggled(self) -> AdminOnly {
        AdminOnly {
            global_config: GlobalConfig {
                paused: !self.global_config.paused,
                ..self.global_config
            },
            ..self
        }
    }
}

/// Stops trading, or opens it again. Admin only.
pub fn toggle_pause(accounts: &mut AdminOnly) -> (r: Result<(), CurveError>)
    ensures
        r is Ok <==> old(accounts).authorized(),
        r matches Err(e) ==> e == CurveError::Unauthorized && *final(accounts) == *old(accounts),
        r is Ok ==> *final(accounts) == old(accounts).toggled(),
        r is Ok <==> old(accounts).admin@ == old(accounts).global_config.admin@,
        r is Ok ==> final(accounts).global_config.paused != old(accounts).global_config.paused,
{
    if !accounts.global_config.admin.same(&accounts.admin) {
        return Err(CurveError::Unauthorized);
    }
    accounts.global_config.paused = !accounts.global_config.paused;
    Ok(())
}

} // verus!
