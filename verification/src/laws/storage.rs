//! That the records fit the accounts that hold them.

use vstd::prelude::*;

use crate::config::GlobalConfig;
use crate::constants::{CURVE_ACCOUNT_SIZE, GLOBAL_CONFIG_SIZE};
use crate::curve::BondingCurve;

verus! {

/// The bytes that a configuration takes in its account, after the discriminator.
pub open spec fn config_bytes(config: GlobalConfig) -> nat {
    config.admin@.len() + config.fee_recipient@.len() + 2 + 8 + 8 + 1 + config.usdc_mint@.len()
        + config.usdt_mint@.len()
}

/// The bytes that a curve takes in its account, after the discriminator. The URI is
/// preceded by its length in 4 bytes.
pub open spec fn curve_bytes(curve: BondingCurve) -> nat {
    curve.mint@.len() + curve.creator@.len() + 8 + 8 + 8 + 8 + 1 + 8 + 8 + 1
        + curve.quote_mint@.len() + 4 + crate::curve::uri_len(curve.metadata_uri)
}

/// Every record fits the account that is set aside for it.
pub proof fn records_fit_their_accounts(config: GlobalConfig, curve: BondingCurve)
    ensures
        8 + config_bytes(config) == GLOBAL_CONFIG_SIZE,
        curve.wf() ==> 8 + curve_bytes(curve) <= CURVE_ACCOUNT_SIZE,
{
}

} // verus!
