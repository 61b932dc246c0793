//! What a purchase is, in terms of what was asked for and what came of it.

use vstd::prelude::*;

use crate::actions::Signing;
use crate::curve::QuoteType;
use crate::errors::CurveError;
use crate::trade::BuySell;

verus! {

/// Whether a purchase of a SOL curve that still lacks SOL may be priced.
pub open spec fn open_to_buyers(a: BuySell, amount_in: u64) -> bool {
    &&& a.fee_recipient@ == a.global_config.fee_recipient@
    &&& !a.global_config.paused
    &&& !a.bonding_curve.complete
    &&& a.bonding_curve.quote_type == QuoteType::Sol
    &&& a.bonding_curve.real_sol_reserves < a.global_config.target_cap
    &&& amount_in > 0
}

/// Before anything is priced, a purchase is refused for one of five reasons, and
/// for each exactly when it applies and none of those before it does.
pub proof fn purchases_are_screened(a: BuySell, amount_in: u64, min_tokens_out: u64)
    ensures
        ({
            let e = a.buy_error(amount_in, min_tokens_out);
            let c = a.bonding_curve;
            let paid_to = a.fee_recipient@ == a.global_config.fee_recipient@;
            let running = paid_to && !a.global_config.paused;
            let trading = running && !c.complete;
            let asked = trading && amount_in > 0;
            let in_sol = asked && c.quote_type == QuoteType::Sol;
            &&& e == Some(CurveError::InvalidFeeRecipient) <==> !paid_to
            &&& e == Some(CurveError::ProgramPaused) <==> paid_to && a.global_config.paused
            &&& e == Some(CurveError::CurveComplete) <==> (running && c.complete) || (in_sol
                && c.real_sol_reserves >= a.global_config.target_cap)
            &&& e == Some(CurveError::InvalidAmount) <==> trading && amount_in == 0
            &&& e == Some(CurveError::UnsupportedQuoteType) <==> asked && c.quote_type
                != QuoteType::Sol
            &&& a.buy_gate_error(amount_in) is None <==> open_to_buyers(a, amount_in)
        }),
{
}

/// The terms of a purchase. The buyer pays the smaller of what was offered and what
/// is missing to the target, the fee is the share of that which the rate makes, the
/// rest goes into the vault, and the token reserve becomes the least number that
/// keeps the product of the reserves above the old one. (The token reserve is held
/// in 64 bits, so that 2^64 is held as zero.)
pub proof fn purchases_are_priced(a: BuySell, amount_in: u64)
    requires
        a.bonding_curve.real_sol_reserves < a.global_config.target_cap,
    ensures
        ({
            let c = a.bonding_curve;
            let q = a.buy_quote(amount_in);
            &&& crate::laws::relations::smaller_of(
                q.paid,
                amount_in as int,
                a.global_config.target_cap - c.real_sol_reserves,
            )
            &&& crate::laws::relations::share_of(
                q.fee,
                q.paid,
                a.global_config.fee_bps as int,
            )
            &&& q.fee + q.sol_in == q.paid
            &&& q.virtual_sol == c.virtual_sol_reserves + q.sol_in
            &&& q.tokens_out == c.virtual_token_reserves - q.virtual_token
            &&& q.sol_in >= 0 && q.virtual_sol > 0 ==> {
                let t = if q.virtual_token == 0 {
                    0x1_0000_0000_0000_0000
                } else {
                    q.virtual_token
                };
                &&& 0 <= q.virtual_token <= u64::MAX
                &&& crate::laws::relations::least_above(
                    t,
                    q.virtual_sol,
                    c.virtual_sol_reserves * c.virtual_token_reserves,
                )
            }
        }),
{
    let c = a.bonding_curve;
    let q = a.buy_quote(amount_in);
    let p = q.paid * a.global_config.fee_bps;
    assert(p >= 0) by (nonlinear_arith)
        requires
            q.paid >= 0,
            p == q.paid * a.global_config.fee_bps,
            a.global_config.fee_bps >= 0,
    ;
    if q.sol_in >= 0 && q.virtual_sol > 0 {
        crate::laws::pricing::lemma_token_reserve(
            c.virtual_sol_reserves as int,
            c.virtual_token_reserves as int,
            q.sol_in,
        );
    }
}

/// A purchase that may be priced is refused for its price in exactly three cases:
/// an amount that the arithmetic cannot hold, fewer tokens than the buyer insists
/// on, more tokens than the pool has left. In all others it is accepted.
pub proof fn priced_purchases_are_decided(a: BuySell, amount_in: u64, min_tokens_out: u64)
    requires
        open_to_buyers(a, amount_in),
    ensures
        ({
            let e = a.buy_error(amount_in, min_tokens_out);
            let q = a.buy_quote(amount_in);
            let holds = q.fee <= q.paid && q.virtual_sol <= u64::MAX && q.virtual_token
                <= a.bonding_curve.virtual_token_reserves;
            let enough = holds && q.tokens_out >= min_tokens_out;
            &&& e == Some(CurveError::MathOverflow) <==> !holds
            &&& e == Some(CurveError::SlippageExceeded) <==> holds && q.tokens_out
                < min_tokens_out
            &&& e == Some(CurveError::InsufficientTokens) <==> enough && q.tokens_out
                > a.bonding_curve.real_token_reserves
            &&& e is None <==> enough && q.tokens_out <= a.bonding_curve.real_token_reserves
        }),
{
}

/// The arithmetic of a purchase is defined except where the product under the fee
/// exceeds 64 bits, or where nothing but a fee is paid to a curve without any SOL
/// reserve.
pub proof fn purchases_are_defined(a: BuySell, amount_in: u64)
    ensures
        !open_to_buyers(a, amount_in) ==> a.buy_defined(amount_in),
        open_to_buyers(a, amount_in) ==> {
            let q = a.buy_quote(amount_in);
            a.buy_defined(amount_in) <==> {
                &&& q.paid * a.global_config.fee_bps <= 0xffff_ffff_ffff_ffff
                &&& a.bonding_curve.virtual_sol_reserves > 0 || q.fee != q.paid
            }
        },
{
    if open_to_buyers(a, amount_in) {
        purchases_are_priced(a, amount_in);
    }
}

/// What an accepted purchase does, seen from the record before and after it and from
/// the operations that settle it. What the buyer parts with, fee and deposit
/// together, is the smaller of the offer and of what is missing; the fee is its
/// share; the deposit is what the reserves gain; the tokens are what the reserves
/// lose, and the product of the reserves only just exceeds the old one.
pub proof fn accepted_purchases(a: BuySell, amount_in: u64, min_tokens_out: u64)
    requires
        crate::laws::pricing::accepts_buy(a, amount_in, min_tokens_out),
    ensures
        ({
            let c = a.bonding_curve;
            let b = a.bought(amount_in);
            let actions = a.buy_actions(amount_in);
            let with_fee = actions.len() == 3;
            let fee: int = if with_fee {
                actions[0]->TransferSol_lamports as int
            } else {
                0
            };
            let deposit = actions[actions.len() - 2];
            let delivery = actions[actions.len() - 1];
            let sol = b.real_sol_reserves - c.real_sol_reserves;
            let tokens = c.real_token_reserves - b.real_token_reserves;
            // What is paid
            &&& sol >= 0
            &&& crate::laws::relations::smaller_of(
                fee + sol,
                amount_in as int,
                a.global_config.target_cap - c.real_sol_reserves,
            )
            &&& crate::laws::relations::share_of(
                fee,
                fee + sol,
                a.global_config.fee_bps as int,
            )
            // The record
            &&& b.virtual_sol_reserves == c.virtual_sol_reserves + sol
            &&& b.virtual_token_reserves == c.virtual_token_reserves - tokens
            &&& sol > 0 ==> crate::laws::relations::least_above(
                b.virtual_token_reserves as int,
                b.virtual_sol_reserves as int,
                c.virtual_sol_reserves * c.virtual_token_reserves,
            )
            &&& sol == 0 ==> b.virtual_token_reserves == 0 && c.virtual_token_reserves == u64::MAX
            &&& tokens >= min_tokens_out
            &&& crate::laws::relations::cut_off(
                b.total_fees_collected as int,
                c.total_fees_collected + fee,
            )
            &&& b.complete <==> b.real_sol_reserves >= a.global_config.target_cap
            &&& b.mint == c.mint
            &&& b.creator == c.creator
            &&& b.created_at == c.created_at
            &&& b.quote_type == c.quote_type
            &&& b.quote_mint == c.quote_mint
            &&& b.metadata_uri == c.metadata_uri
            // The settlement
            &&& actions.len() == 2 || actions.len() == 3
            &&& with_fee ==> fee > 0 && actions[0] is TransferSol
                && actions[0]->TransferSol_from == a.user && actions[0]->TransferSol_to
                == a.fee_recipient && actions[0]->TransferSol_signing == Signing::Wallets
            &&& deposit is TransferSol && deposit->TransferSol_lamports == sol
                && deposit->TransferSol_from == a.user && deposit->TransferSol_to == a.sol_vault
                && deposit->TransferSol_signing == Signing::Wallets
            &&& delivery is TransferTokens && delivery->TransferTokens_amount == tokens
                && delivery->TransferTokens_from == a.curve_token_account
                && delivery->TransferTokens_to == a.user_token_account
                && delivery->TransferTokens_authority == a.bonding_curve_key
                && delivery->TransferTokens_signing == (Signing::Curve {
                mint: a.mint,
                bump: a.bumps.bonding_curve,
            })
        }),
{
    let c = a.bonding_curve;
    let q = a.buy_quote(amount_in);
    purchases_are_priced(a, amount_in);
    crate::laws::pricing::lemma_fee_nonnegative(q.paid, a.global_config.fee_bps as int);
    if q.sol_in > 0 {
        crate::laws::pricing::lemma_bought(a, amount_in, min_tokens_out);
    } else {
        crate::laws::pricing::lemma_token_reserve(
            c.virtual_sol_reserves as int,
            c.virtual_token_reserves as int,
            q.sol_in,
        );
        let vs = c.virtual_sol_reserves as int;
        let vt = c.virtual_token_reserves as int;
        vstd::arithmetic::div_mod::lemma_div_by_multiple(vt, vs);
        assert(vt * vs == vs * vt) by (nonlinear_arith);
    }
}

/// An offer that fits what is missing to the target is taken in full, a larger one up
/// to what is missing.
pub proof fn full_offers_are_taken(a: BuySell, amount_in: u64, min_tokens_out: u64)
    requires
        crate::laws::pricing::accepts_buy(a, amount_in, min_tokens_out),
        a.sol_vault@ != a.user@,
        a.fee_recipient@ != a.user@,
    ensures
        ({
            let taken = -crate::actions::lamports_into(a.buy_actions(amount_in), a.user@);
            let missing = a.global_config.target_cap - a.bonding_curve.real_sol_reserves;
            &&& amount_in <= missing ==> taken == amount_in
            &&& amount_in > missing ==> taken == missing
        }),
{
    let q = a.buy_quote(amount_in);
    purchases_are_priced(a, amount_in);
    crate::laws::pricing::lemma_fee_nonnegative(q.paid, a.global_config.fee_bps as int);
    crate::laws::settlement::lemma_buy_actions(a, amount_in, a.user@);
}

} // verus!
