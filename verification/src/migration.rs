//! Handing a graduated pool over to the migration wallet.

use vstd::prelude::*;

use crate::actions::{Action, Signing};
use crate::config::GlobalConfig;
use crate::curve::{BondingCurve, PoolBumps};
use crate::errors::CurveError;
use crate::pubkey::Pubkey;

verus! {

/// The accounts of [`migrate`].
#[derive(Clone, Debug, PartialEq, Eq)]
pub struct Migrate {
    pub bonding_curve: BondingCurve,
    /// The address of the curve account.
    pub bonding_curve_key: Pubkey,
    /// The address of the SOL vault.
    pub sol_vault: Pubkey,
    /// The lamports in the SOL vault.
    pub sol_balance: u64,
    /// The token account that holds the tokens of the pool.
    pub curve_token_account: Pubkey,
    /// The tokens in it.
    pub token_balance: u64,
    /// The token of the pool.
    pub mint: Pubkey,
    /// The wallet that receives the SOL.
    pub migration_wallet: Pubkey,
    /// The token account of that wallet, which receives the tokens.
    pub migration_token_account: Pubkey,
    pub global_config: GlobalConfig,
    /// The signer.
    pub admin: Pubkey,
    pub bumps: PoolBumps,
}

impl Migrate {
    /// Why [`migrate`] refuses, if it does: the signer has to be the admin, and the
    /// pool has to have graduated.
    pub open spec fn migrate_error(self) -> Option<CurveError> {
        if self.global_config.admin@ != self.admin@ {
            Some(CurveError::Unauthorized)
        } else if !self.bonding_curve.complete {
            Some(CurveError::CurveNotComplete)
        } else {
            None
        }
    }

    /// The operations that empty the two vaults, one for each that holds anything.
    pub open spec fn migrate_actions(self) -> Seq<Action> {
        (if self.sol_balance > 0 {
            seq![
                Action::TransferSol {
                    from: self.sol_vault,
                    to: self.migration_wallet,
                    lamports: self.sol_balance,
                    signing: Signing::Vault { mint: self.mint, bump: self.bumps.sol_vault },
                },
            ]
        } else {
            seq![]
        }) + (if self.token_balance > 0 {
            seq![
                Action::TransferTokens {
                    from: self.curve_token_account,
                    to: self.migration_token_account,
                    authority: self.bonding_curve_key,
                    amount: self.token_balance,
                    signing: Signing::Curve { mint: self.mint, bump: self.bumps.bonding_curve },
                },
            ]
        } else {
            seq![]
        })
    }
}

/// Sends all SOL and all tokens of a graduated pool to the migration wallet.
/// Admin only. The record of the pool stays as it is.
pub fn migrate(accounts: &Migrate) -> (r: Result<Vec<Action>, CurveError>)
    ensures
        r is Ok <==> accounts.migrate_error() is None,
        r matches Err(e) ==> accounts.migrate_error() == Some(e),
        r matches Ok(actions) ==> actions@ == accounts.migrate_actions(),
        r is Ok <==> accounts.admin@ == accounts.global_config.admin@
            && accounts.bonding_curve.complete,
{
    if !accounts.global_config.admin.same(&accounts.admin) {
        return Err(CurveError::Unauthorized);
    }
    if !accounts.bonding_curve.complete {
        return Err(CurveError::CurveNotComplete);
    }
    let mut actions: Vec<Action> = Vec::new();
    if accounts.sol_balance > 0 {
        actions.push(
            Action::TransferSol {
                from: accounts.sol_vault,
                to: accounts.migration_wallet,
                lamports: accounts.sol_balance,
                signing: Signing::Vault { mint: accounts.mint, bump: accounts.bumps.sol_vault },
            },
        );
    }
    if accounts.token_balance > 0 {
        actions.push(
            Action::TransferTokens {
                from: accounts.curve_token_account,
                to: accounts.migration_token_account,
                authority: accounts.bonding_curve_key,
                amount: accounts.token_balance,
                signing: Signing::Curve {
                    mint: accounts.mint,
                    bump: accounts.bumps.bonding_curve,
                },
            },
        );
    }
    assert(actions@ =~= accounts.migrate_actions());
    Ok(actions)
}

} // verus!
