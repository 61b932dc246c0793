//! What a sale is, in terms of what was asked for and what came of it.

use vstd::prelude::*;

use crate::actions::Signing;
use crate::curve::QuoteType;
use crate::errors::CurveError;
use crate::trade::BuySell;

verus! {

/// Whether a sale to a SOL curve may be priced.
pub open spec fn open_to_sellers(a: BuySell, amount_tokens: u64) -> bool {
    &&& a.fee_recipient@ == a.global_config.fee_recipient@
    &&& !a.global_config.paused
    &&& !a.bonding_curve.complete
    &&& a.bonding_curve.quote_type == QuoteType::Sol
    &&& amount_tokens > 0
}

/// Before anything is priced, a sale is refused for one of five reasons, and for
/// each exactly when it applies and none of those before it does.
pub proof fn sales_are_screened(a: BuySell, amount_tokens: u64, min_sol_out: u64)
    ensures
        ({
            let e = a.sell_error(amount_tokens, min_sol_out);
            let c = a.bonding_curve;
            let paid_to = a.fee_recipient@ == a.global_config.fee_recipient@;
            let running = paid_to && !a.global_config.paused;
            let trading = running && !c.complete;
            let asked = trading && amount_tokens > 0;
            &&& e == Some(CurveError::InvalidFeeRecipient) <==> !paid_to
            &&& e == Some(CurveError::ProgramPaused) <==> paid_to && a.global_config.paused
            &&& e == Some(CurveError::CurveComplete) <==> running && c.complete
            &&& e == Some(CurveError::InvalidAmount) <==> trading && amount_tokens == 0
            &&& e == Some(CurveError::UnsupportedQuoteType) <==> asked && c.quote_type
                != QuoteType::Sol
            &&& a.gate_error(amount_tokens) is None <==> open_to_sellers(a, amount_tokens)
        }),
{
}

/// The terms of a sale. The SOL reserve becomes the greatest number that keeps the
/// product of the reserves within the old one, what it loses leaves the vault, the
/// fee is the share of that which the rate makes, and the seller gets the rest.
pub proof fn sales_are_priced(a: BuySell, amount_tokens: u64)
    requires
        amount_tokens > 0,
    ensures
        ({
            let c = a.bonding_curve;
            let q = a.sell_quote(amount_tokens);
            &&& q.virtual_token == c.virtual_token_reserves + amount_tokens
            &&& crate::laws::relations::greatest_within(
                q.virtual_sol,
                q.virtual_token,
                c.virtual_sol_reserves * c.virtual_token_reserves,
            )
            &&& 0 <= q.virtual_sol <= c.virtual_sol_reserves
            &&& q.sol_out == c.virtual_sol_reserves - q.virtual_sol
            &&& crate::laws::relations::share_of(
                q.fee,
                q.sol_out,
                a.global_config.fee_bps as int,
            )
            &&& q.fee + q.net_sol_out == q.sol_out
        }),
{
    let c = a.bonding_curve;
    let q = a.sell_quote(amount_tokens);
    crate::laws::pricing::lemma_sol_reserve(
        c.virtual_sol_reserves as int,
        c.virtual_token_reserves as int,
        amount_tokens as int,
    );
    assert((q.virtual_sol + 1) * q.virtual_token == q.virtual_sol * q.virtual_token
        + q.virtual_token) by (nonlinear_arith);
    let p = q.sol_out * a.global_config.fee_bps;
    assert(p >= 0) by (nonlinear_arith)
        requires
            q.sol_out >= 0,
            p == q.sol_out * a.global_config.fee_bps,
            a.global_config.fee_bps >= 0,
    ;
}

/// A sale that may be priced is refused for its price in exactly three cases: an
/// amount that the arithmetic cannot hold, less SOL than the seller insists on, more
/// SOL than was raised. In all others it is accepted.
pub proof fn priced_sales_are_decided(a: BuySell, amount_tokens: u64, min_sol_out: u64)
    requires
        open_to_sellers(a, amount_tokens),
    ensures
        ({
            let e = a.sell_error(amount_tokens, min_sol_out);
            let c = a.bonding_curve;
            let q = a.sell_quote(amount_tokens);
            let holds = c.virtual_token_reserves + amount_tokens <= u64::MAX && q.fee
                <= q.sol_out;
            let enough = holds && q.net_sol_out >= min_sol_out;
            let covered = enough && q.sol_out <= c.real_sol_reserves;
            let fits = c.real_token_reserves + amount_tokens <= u64::MAX;
            &&& e == Some(CurveError::MathOverflow) <==> !holds || (covered && !fits)
            &&& e == Some(CurveError::SlippageExceeded) <==> holds && q.net_sol_out
                < min_sol_out
            &&& e == Some(CurveError::InsufficientSol) <==> enough && q.sol_out
                > c.real_sol_reserves
            &&& e is None <==> covered && fits
        }),
{
}

/// The arithmetic of a sale is defined except where the product under the fee
/// exceeds 64 bits.
pub proof fn sales_are_defined(a: BuySell, amount_tokens: u64)
    ensures
        a.sell_defined(amount_tokens) <==> !(open_to_sellers(a, amount_tokens)
            && a.bonding_curve.virtual_token_reserves + amount_tokens <= 0xffff_ffff_ffff_ffff
            && a.sell_quote(amount_tokens).sol_out * a.global_config.fee_bps
            > 0xffff_ffff_ffff_ffff),
{
}

/// What an accepted sale does, seen from the record before and after it and from the
/// operations that settle it. The reserves gain exactly the tokens sold; the SOL
/// that they lose only just keeps their product within the old one; the fee is its
/// share of that SOL, and the seller gets all the rest.
pub proof fn accepted_sales(a: BuySell, amount_tokens: u64, min_sol_out: u64)
    requires
        crate::laws::pricing::accepts_sell(a, amount_tokens, min_sol_out),
    ensures
        ({
            let c = a.bonding_curve;
            let b = a.sold(amount_tokens);
            let actions = a.sell_actions(amount_tokens);
            let with_fee = actions.len() == 3;
            let fee: int = if with_fee {
                actions[2]->TransferSol_lamports as int
            } else {
                0
            };
            let handover = actions[0];
            let payout = actions[1];
            let sol = c.real_sol_reserves - b.real_sol_reserves;
            let vault_signs = Signing::Vault { mint: a.mint, bump: a.bumps.sol_vault };
            // The record
            &&& sol >= 0
            &&& b.real_token_reserves == c.real_token_reserves + amount_tokens
            &&& b.virtual_token_reserves == c.virtual_token_reserves + amount_tokens
            &&& b.virtual_sol_reserves == c.virtual_sol_reserves - sol
            &&& crate::laws::relations::greatest_within(
                b.virtual_sol_reserves as int,
                b.virtual_token_reserves as int,
                c.virtual_sol_reserves * c.virtual_token_reserves,
            )
            &&& crate::laws::relations::cut_off(
                b.total_fees_collected as int,
                c.total_fees_collected + fee,
            )
            &&& !b.complete
            &&& b.mint == c.mint
            &&& b.creator == c.creator
            &&& b.created_at == c.created_at
            &&& b.quote_type == c.quote_type
            &&& b.quote_mint == c.quote_mint
            &&& b.metadata_uri == c.metadata_uri
            // The fee
            &&& crate::laws::relations::share_of(fee, sol, a.global_config.fee_bps as int)
            // The settlement
            &&& actions.len() == 2 || actions.len() == 3
            &&& handover is TransferTokens && handover->TransferTokens_amount == amount_tokens
                && handover->TransferTokens_from == a.user_token_account
                && handover->TransferTokens_to == a.curve_token_account
                && handover->TransferTokens_authority == a.user
                && handover->TransferTokens_signing == Signing::Wallets
            &&& payout is TransferSol && payout->TransferSol_lamports == sol - fee
                && payout->TransferSol_lamports >= min_sol_out && payout->TransferSol_from
                == a.sol_vault && payout->TransferSol_to == a.user
                && payout->TransferSol_signing == vault_signs
            &&& with_fee ==> fee > 0 && actions[2] is TransferSol
                && actions[2]->TransferSol_from == a.sol_vault && actions[2]->TransferSol_to
                == a.fee_recipient && actions[2]->TransferSol_signing == vault_signs
        }),
{
    let q = a.sell_quote(amount_tokens);
    sales_are_priced(a, amount_tokens);
    crate::laws::pricing::lemma_fee_nonnegative(q.sol_out, a.global_config.fee_bps as int);
}

/// The share that goes to the fee recipient does not shrink with the size of a sale:
/// what the recipient gets and what leaves the vault stand in the configured ratio,
/// up to less than one lamport.
pub proof fn fee_recipient_gets_the_share(a: BuySell, amount_tokens: u64, min_sol_out: u64)
    requires
        crate::laws::pricing::accepts_sell(a, amount_tokens, min_sol_out),
        a.sol_vault@ != a.user@,
        a.sol_vault@ != a.fee_recipient@,
        a.user@ != a.fee_recipient@,
    ensures
        crate::laws::relations::share_of(
            crate::actions::lamports_into(a.sell_actions(amount_tokens), a.fee_recipient@),
            -crate::actions::lamports_into(a.sell_actions(amount_tokens), a.sol_vault@),
            a.global_config.fee_bps as int,
        ),
{
    let q = a.sell_quote(amount_tokens);
    sales_are_priced(a, amount_tokens);
    crate::laws::pricing::lemma_fee_nonnegative(q.sol_out, a.global_config.fee_bps as int);
    crate::laws::settlement::lemma_sell_actions(a, amount_tokens, a.fee_recipient@);
    crate::laws::settlement::lemma_sell_actions(a, amount_tokens, a.sol_vault@);
}

} // verus!
