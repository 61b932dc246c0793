//! When requests are refused, and who may ask.

use vstd::prelude::*;

use crate::config::{AdminOnly, UpdateGlobal};
use crate::curve::{CreatePool, QuoteType};
use crate::errors::CurveError;
use crate::migration::Migrate;
use crate::trade::BuySell;

verus! {

/// Once a pool has graduated every trade is refused; with the right fee recipient
/// and the program running, the reason given is that the curve is complete.
pub proof fn graduation_locks_trading(a: BuySell, amount: u64, limit: u64)
    requires
        a.bonding_curve.complete,
    ensures
        a.buy_error(amount, limit) is Some,
        a.sell_error(amount, limit) is Some,
        a.fee_recipient@ == a.global_config.fee_recipient@ && !a.global_config.paused ==> {
            &&& a.buy_error(amount, limit) == Some(CurveError::CurveComplete)
            &&& a.sell_error(amount, limit) == Some(CurveError::CurveComplete)
        },
{
}

/// Only a purchase graduates a pool: a sale leaves the mark as it was, and a pool
/// that has not graduated cannot be migrated.
pub proof fn only_buys_graduate(a: BuySell, amount_tokens: u64, m: Migrate)
    ensures
        a.sold(amount_tokens).complete == a.bonding_curve.complete,
        !m.bonding_curve.complete ==> m.migrate_error() is Some,
{
}

/// While the program is paused nothing is traded and no pool is created; where the
/// fee recipient is right, the reason given is the pause.
pub proof fn pause_stops_everything(
    a: BuySell,
    amount: u64,
    limit: u64,
    p: CreatePool,
    metadata_uri: String,
    quote_type: u8,
)
    ensures
        a.global_config.paused ==> a.buy_error(amount, limit) is Some && a.sell_error(
            amount,
            limit,
        ) is Some,
        a.global_config.paused && a.fee_recipient@ == a.global_config.fee_recipient@ ==> {
            &&& a.buy_error(amount, limit) == Some(CurveError::ProgramPaused)
            &&& a.sell_error(amount, limit) == Some(CurveError::ProgramPaused)
        },
        p.global_config.paused ==> p.create_error(metadata_uri, quote_type) == Some(
            CurveError::ProgramPaused,
        ),
{
}

/// Toggling the pause twice gives back what was there, and a sound configuration
/// stays sound.
pub proof fn toggling_twice_changes_nothing(t: AdminOnly)
    ensures
        t.toggled().toggled() == t,
        t.authorized() ==> t.toggled().authorized(),
        t.global_config.wf() ==> t.toggled().global_config.wf(),
{
}

/// Who is not the admin can neither change the settings, nor toggle the pause, nor
/// migrate a pool.
pub proof fn strangers_are_refused(
    u: UpdateGlobal,
    fee_bps: u16,
    target_cap: u64,
    t: AdminOnly,
    m: Migrate,
)
    ensures
        u.admin@ != u.global_config.admin@ ==> u.update_error(fee_bps, target_cap) == Some(
            CurveError::Unauthorized,
        ),
        t.admin@ != t.global_config.admin@ ==> !t.authorized(),
        m.admin@ != m.global_config.admin@ ==> m.migrate_error() == Some(CurveError::Unauthorized),
{
}

/// Curves quoted in a stablecoin never trade; where nothing else stands in the way,
/// the reason given is the quote currency.
pub proof fn stablecoin_curves_never_trade(a: BuySell, amount: u64, limit: u64)
    requires
        a.bonding_curve.quote_type != QuoteType::Sol,
    ensures
        a.buy_error(amount, limit) is Some,
        a.sell_error(amount, limit) is Some,
        a.fee_recipient@ == a.global_config.fee_recipient@ && !a.global_config.paused
            && !a.bonding_curve.complete && amount > 0 ==> {
            &&& a.buy_error(amount, limit) == Some(CurveError::UnsupportedQuoteType)
            &&& a.sell_error(amount, limit) == Some(CurveError::UnsupportedQuoteType)
        },
{
}

} // verus!
