//! Buying from and selling to a curve.
//!
//! Trades move along a constant product of the virtual reserves. Fees are taken
//! on the SOL side.

use vstd::prelude::*;

use crate::actions::{Action, Signing};
use crate::config::GlobalConfig;
use crate::constants::BPS_DENOMINATOR;
use crate::curve::{BondingCurve, PoolBumps, QuoteType};
use crate::errors::CurveError;
use crate::pubkey::Pubkey;

verus! {

/// The fee on an amount of SOL, rounded down.
pub open spec fn fee_on(sol: int, fee_bps: int) -> int {
    (sol * fee_bps) / (BPS_DENOMINATOR as int)
}

/// The token reserve after `sol_in` has been added to the SOL reserve: the least
/// number whose product with the new SOL reserve exceeds the old product.
pub open spec fn token_reserve_after(sol: int, token: int, sol_in: int) -> int {
    (sol * token) / (sol + sol_in) + 1
}

/// The SOL reserve after `tokens_in` has been added to the token reserve: the
/// greatest number whose product with the new token reserve stays within the old
/// product.
pub open spec fn sol_reserve_after(sol: int, token: int, tokens_in: int) -> int {
    (sol * token) / (token + tokens_in)
}

/// The sum of two amounts, or the greatest amount where the sum exceeds it.
pub open spec fn capped_sum(a: u64, b: int) -> int {
    if a + b > u64::MAX {
        u64::MAX as int
    } else {
        a + b
    }
}

/// What a purchase comes to.
pub struct BuyQuote {
    /// What the buyer pays in all: the amount offered, or what is missing to the
    /// graduation target where that is less.
    pub paid: int,
    /// The part of it that is the fee.
    pub fee: int,
    /// The part of it that goes into the vault.
    pub sol_in: int,
    /// The virtual SOL reserve afterwards.
    pub virtual_sol: int,
    /// The virtual token reserve afterwards, as a 64-bit register holds it.
    pub virtual_token: int,
    /// The tokens that the buyer gets.
    pub tokens_out: int,
}

/// What a sale comes to.
pub struct SellQuote {
    /// The virtual token reserve afterwards.
    pub virtual_token: int,
    /// The virtual SOL reserve afterwards.
    pub virtual_sol: int,
    /// What leaves the vault.
    pub sol_out: int,
    /// The part of it that is the fee.
    pub fee: int,
    /// The part of it that the seller gets.
    pub net_sol_out: int,
}

/// The accounts of [`buy`] and [`sell`].
#[derive(Clone, Debug, PartialEq, Eq)]
pub struct BuySell {
    pub bonding_curve: BondingCurve,
    /// The address of the curve account.
    pub bonding_curve_key: Pubkey,
    /// The address of the SOL vault.
    pub sol_vault: Pubkey,
    /// The token account that holds the tokens of the pool.
    pub curve_token_account: Pubkey,
    /// The token account of the trader.
    pub user_token_account: Pubkey,
    /// The token being traded.
    pub mint: Pubkey,
    /// The trader, who signs.
    pub user: Pubkey,
    pub global_config: GlobalConfig,
    /// The account to which the fee is paid.
    pub fee_recipient: Pubkey,
    pub bumps: PoolBumps,
}

/// A trade that was accepted.
#[derive(Clone, Debug, PartialEq, Eq)]
pub struct Fill {
    /// The lamports that moved between the trader and the vault.
    pub sol: u64,
    /// The tokens that moved the other way.
    pub tokens: u64,
    /// The lamports paid to the fee recipient.
    pub fee: u64,
    /// The account operations that settle the trade, in order.
    pub actions: Vec<Action>,
}

impl BuySell {
    /// Why a trade of any direction is refused before it is priced, if it is.
    pub open spec fn gate_error(self, amount: u64) -> Option<CurveError> {
        if self.fee_recipient@ != self.global_config.fee_recipient@ {
            Some(CurveError::InvalidFeeRecipient)
        } else if self.global_config.paused {
            Some(CurveError::ProgramPaused)
        } else if self.bonding_curve.complete {
            Some(CurveError::CurveComplete)
        } else if amount == 0 {
            Some(CurveError::InvalidAmount)
        } else if self.bonding_curve.quote_type != QuoteType::Sol {
            Some(CurveError::UnsupportedQuoteType)
        } else {
            None
        }
    }

    /// Why a purchase is refused before it is priced, if it is.
    pub open spec fn buy_gate_error(self, amount_in: u64) -> Option<CurveError> {
        if self.gate_error(amount_in) is Some {
            self.gate_error(amount_in)
        } else if self.bonding_curve.real_sol_reserves >= self.global_config.target_cap {
            Some(CurveError::CurveComplete)
        } else {
            None
        }
    }

    /// What a purchase for `amount_in` lamports comes to.
    pub open spec fn buy_quote(self, amount_in: u64) -> BuyQuote {
        let curve = self.bonding_curve;
        let missing = self.global_config.target_cap - curve.real_sol_reserves;
        let paid = if amount_in <= missing {
            amount_in as int
        } else {
            missing
        };
        let fee = fee_on(paid, self.global_config.fee_bps as int);
        let sol_in = paid - fee;
        let virtual_token = token_reserve_after(
            curve.virtual_sol_reserves as int,
            curve.virtual_token_reserves as int,
            sol_in,
        ) % 0x1_0000_0000_0000_0000;
        BuyQuote {
            paid,
            fee,
            sol_in,
            virtual_sol: curve.virtual_sol_reserves + sol_in,
            virtual_token,
            tokens_out: curve.virtual_token_reserves - virtual_token,
        }
    }

    /// Whether the arithmetic of a purchase is defined: the product under the fee
    /// fits 64 bits, and no division by zero is met.
    pub open spec fn buy_defined(self, amount_in: u64) -> bool {
        let q = self.buy_quote(amount_in);
        self.buy_gate_error(amount_in) is None ==> {
            &&& q.paid * self.global_config.fee_bps <= u64::MAX
            &&& q.sol_in >= 0 ==> q.virtual_sol > 0
        }
    }

    /// Why [`buy`] refuses, if it does.
    pub open spec fn buy_error(self, amount_in: u64, min_tokens_out: u64) -> Option<CurveError> {
        let q = self.buy_quote(amount_in);
        if self.buy_gate_error(amount_in) is Some {
            self.buy_gate_error(amount_in)
        } else if q.sol_in < 0 || q.virtual_sol > u64::MAX || q.tokens_out < 0 {
            Some(CurveError::MathOverflow)
        } else if q.tokens_out < min_tokens_out {
            Some(CurveError::SlippageExceeded)
        } else if q.tokens_out > self.bonding_curve.real_token_reserves {
            Some(CurveError::InsufficientTokens)
        } else {
            None
        }
    }

    /// The curve after a purchase.
    pub open spec fn bought(self, amount_in: u64) -> BondingCurve {
        let q = self.buy_quote(amount_in);
        let curve = self.bonding_curve;
        BondingCurve {
            virtual_sol_reserves: q.virtual_sol as u64,
            virtual_token_reserves: q.virtual_token as u64,
            real_sol_reserves: (curve.real_sol_reserves + q.sol_in) as u64,
            real_token_reserves: (curve.real_token_reserves - q.tokens_out) as u64,
            total_fees_collected: capped_sum(curve.total_fees_collected, q.fee) as u64,
            complete: curve.real_sol_reserves + q.sol_in >= self.global_config.target_cap,
            ..curve
        }
    }

    /// The operations that settle a purchase: the fee if there is one, the SOL
    /// into the vault, the tokens to the buyer.
    pub open spec fn buy_actions(self, amount_in: u64) -> Seq<Action> {
        let q = self.buy_quote(amount_in);
        (if q.fee > 0 {
            seq![
                Action::TransferSol {
                    from: self.user,
                    to: self.fee_recipient,
                    lamports: q.fee as u64,
                    signing: Signing::Wallets,
                },
            ]
        } else {
            seq![]
        }) + seq![
            Action::TransferSol {
                from: self.user,
                to: self.sol_vault,
                lamports: q.sol_in as u64,
                signing: Signing::Wallets,
            },
            Action::TransferTokens {
                from: self.curve_token_account,
                to: self.user_token_account,
                authority: self.bonding_curve_key,
                amount: q.tokens_out as u64,
                signing: Signing::Curve { mint: self.mint, bump: self.bumps.bonding_curve },
            },
        ]
    }

    /// What a sale of `amount_tokens` comes to.
    pub open spec fn sell_quote(self, amount_tokens: u64) -> SellQuote {
        let curve = self.bonding_curve;
        let virtual_sol = sol_reserve_after(
            curve.virtual_sol_reserves as int,
            curve.virtual_token_reserves as int,
            amount_tokens as int,
        );
        let sol_out = curve.virtual_sol_reserves - virtual_sol;
        let fee = fee_on(sol_out, self.global_config.fee_bps as int);
        SellQuote {
            virtual_token: curve.virtual_token_reserves + amount_tokens,
            virtual_sol,
            sol_out,
            fee,
            net_sol_out: sol_out - fee,
        }
    }

    /// Whether the arithmetic of a sale is defined: the product under the fee fits
    /// 64 bits.
    pub open spec fn sell_defined(self, amount_tokens: u64) -> bool {
        let q = self.sell_quote(amount_tokens);
        self.gate_error(amount_tokens) is None && q.virtual_token <= u64::MAX ==> q.sol_out
            * self.global_config.fee_bps <= u64::MAX
    }

    /// Why [`sell`] refuses, if it does.
    pub open spec fn sell_error(self, amount_tokens: u64, min_sol_out: u64) -> Option<CurveError> {
        let q = self.sell_quote(amount_tokens);
        if self.gate_error(amount_tokens) is Some {
            self.gate_error(amount_tokens)
        } else if q.virtual_token > u64::MAX || q.net_sol_out < 0 {
            Some(CurveError::MathOverflow)
        } else if q.net_sol_out < min_sol_out {
            Some(CurveError::SlippageExceeded)
        } else if q.sol_out > self.bonding_curve.real_sol_reserves {
            Some(CurveError::InsufficientSol)
        } else if self.bonding_curve.real_token_reserves + amount_tokens > u64::MAX {
            Some(CurveError::MathOverflow)
        } else {
            None
        }
    }

    /// The curve after a sale.
    pub open spec fn sold(self, amount_tokens: u64) -> BondingCurve {
        let q = self.sell_quote(amount_tokens);
        let curve = self.bonding_curve;
        BondingCurve {
            virtual_sol_reserves: q.virtual_sol as u64,
            virtual_token_reserves: q.virtual_token as u64,
            real_sol_reserves: (curve.real_sol_reserves - q.sol_out) as u64,
            real_token_reserves: (curve.real_token_reserves + amount_tokens) as u64,
            total_fees_collected: capped_sum(curve.total_fees_collected, q.fee) as u64,
            ..curve
        }
    }

    /// The operations that settle a sale: the tokens into the vault of the curve,
    /// the SOL to the seller, the fee if there is one.
    pub open spec fn sell_actions(self, amount_tokens: u64) -> Seq<Action> {
        let q = self.sell_quote(amount_tokens);
        let vault_signs = Signing::Vault { mint: self.mint, bump: self.bumps.sol_vault };
        seq![
            Action::TransferTokens {
                from: self.user_token_account,
                to: self.curve_token_account,
                authority: self.user,
                amount: amount_tokens,
                signing: Signing::Wallets,
            },
            Action::TransferSol {
                from: self.sol_vault,
                to: self.user,
                lamports: q.net_sol_out as u64,
                signing: vault_signs,
            },
        ] + (if q.fee > 0 {
            seq![
                Action::TransferSol {
                    from: self.sol_vault,
                    to: self.fee_recipient,
                    lamports: q.fee as u64,
                    signing: vault_signs,
                },
            ]
        } else {
            seq![]
        })
    }

    fn check_gate(&self, amount: u64) -> (r: Result<(), CurveError>)
        ensures
            r is Ok <==> self.gate_error(amount) is None,
            r matches Err(e) ==> self.gate_error(amount) == Some(e),
    {
        if !self.fee_recipient.same(&self.global_config.fee_recipient) {
            return Err(CurveError::InvalidFeeRecipient);
        }
        if self.global_config.paused {
            return Err(CurveError::ProgramPaused);
        }
        if self.bonding_curve.complete {
            return Err(CurveError::CurveComplete);
        }
        if amount == 0 {
            return Err(CurveError::InvalidAmount);
        }
        if self.bonding_curve.quote_type != QuoteType::Sol {
            return Err(CurveError::UnsupportedQuoteType);
        }
        Ok(())
    }

    /// Checks a purchase and returns what the buyer pays in all.
    fn check_buy(&self, amount_in: u64) -> (r: Result<u64, CurveError>)
        ensures
            r is Ok <==> self.buy_gate_error(amount_in) is None,
            r matches Err(e) ==> self.buy_gate_error(amount_in) == Some(e),
            r matches Ok(paid) ==> paid == self.buy_quote(amount_in).paid,
    {
        match self.check_gate(amount_in) {
            Err(e) => return Err(e),
            Ok(()) => {},
        }
        let missing: u64 = self.global_config.target_cap.saturating_sub(
            self.bonding_curve.real_sol_reserves,
        );
        if missing == 0 {
            return Err(CurveError::CurveComplete);
        }
        if amount_in <= missing {
            Ok(amount_in)
        } else {
            Ok(missing)
        }
    }

    /// Tells whether [`buy`] may be called: whether its arithmetic is defined.
    pub fn buy_is_defined(&self, amount_in: u64) -> (r: bool)
        ensures
            r == self.buy_defined(amount_in),
    {
        let paid: u64 = match self.check_buy(amount_in) {
            Err(_) => return true,
            Ok(paid) => paid,
        };
        let fee_bps: u64 = self.global_config.fee_bps as u64;
        match paid.checked_mul(fee_bps) {
            None => false,
            Some(product) => {
                let fee: u64 = product / BPS_DENOMINATOR;
                self.bonding_curve.virtual_sol_reserves > 0 || paid != fee
            },
        }
    }

    /// Tells whether [`sell`] may be called: whether its arithmetic is defined.
    pub fn sell_is_defined(&self, amount_tokens: u64) -> (r: bool)
        ensures
            r == self.sell_defined(amount_tokens),
    {
        match self.check_gate(amount_tokens) {
            Err(_) => return true,
            Ok(()) => {},
        }
        let virtual_token: u64 = match self.bonding_curve.virtual_token_reserves.checked_add(
            amount_tokens,
        ) {
            None => return true,
            Some(virtual_token) => virtual_token,
        };
        let virtual_sol: u64 = sol_reserve(
            self.bonding_curve.virtual_sol_reserves,
            self.bonding_curve.virtual_token_reserves,
            virtual_token,
        );
        let sol_out: u64 = self.bonding_curve.virtual_sol_reserves - virtual_sol;
        sol_out.checked_mul(self.global_config.fee_bps as u64).is_some()
    }
}

/// The fee on an amount of SOL.
fn compute_fee(sol: u64, fee_bps: u16) -> (r: u64)
    requires
        sol * fee_bps <= u64::MAX,
    ensures
        r == fee_on(sol as int, fee_bps as int),
{
    (sol * (fee_bps as u64)) / BPS_DENOMINATOR
}

/// The token reserve that goes with a grown SOL reserve.
fn token_reserve(sol: u64, token: u64, new_sol: u64) -> (r: u64)
    requires
        sol <= new_sol,
        new_sol > 0,
    ensures
        r == token_reserve_after(sol as int, token as int, new_sol - sol)
            % 0x1_0000_0000_0000_0000,
{
    proof {
        lemma_product_fits(sol, token);
    }
    let k: u128 = (sol as u128) * (token as u128);
    let quotient: u128 = k / (new_sol as u128);
    proof {
        lemma_quotient_at_most(k as int, new_sol as int);
    }
    let next: u128 = quotient + 1;
    assert(next as u64 == next % 0x1_0000_0000_0000_0000u128) by (bit_vector);
    #[verifier::truncate]
    (next as u64)
}

/// The SOL reserve that goes with a grown token reserve.
fn sol_reserve(sol: u64, token: u64, new_token: u64) -> (r: u64)
    requires
        token < new_token,
    ensures
        r == sol_reserve_after(sol as int, token as int, new_token - token),
        r <= sol,
{
    proof {
        lemma_product_fits(sol, token);
        lemma_share_at_most(sol as int, token as int, new_token as int);
    }
    let k: u128 = (sol as u128) * (token as u128);
    (k / (new_token as u128)) as u64
}

proof fn lemma_product_fits(a: u64, b: u64)
    ensures
        0 <= a * b <= 0xffff_ffff_ffff_ffff * 0xffff_ffff_ffff_ffff,
{
    assert(0 <= a * b <= 0xffff_ffff_ffff_ffff * 0xffff_ffff_ffff_ffff) by (nonlinear_arith)
        requires
            0 <= a <= 0xffff_ffff_ffff_ffff,
            0 <= b <= 0xffff_ffff_ffff_ffff,
    ;
}

proof fn lemma_quotient_at_most(k: int, d: int)
    requires
        k >= 0,
        d > 0,
    ensures
        0 <= k / d <= k,
{
    assert(0 <= k / d <= k) by (nonlinear_arith)
        requires
            k >= 0,
            d > 0,
    ;
}

/// Of a product, no more than the first factor is left after division by more
/// than the second.
pub(crate) proof fn lemma_share_at_most(a: int, b: int, d: int)
    requires
        0 <= a,
        0 <= b <= d,
        d > 0,
    ensures
        0 <= (a * b) / d <= a,
{
    assert(0 <= (a * b) / d <= a) by (nonlinear_arith)
        requires
            0 <= a,
            0 <= b <= d,
            d > 0,
    ;
}

/// Buys tokens for at most `amount_in` lamports, fee included. No more is taken
/// than what is missing to the graduation target; the pool graduates when the
/// target is reached. Refused where fewer than `min_tokens_out` tokens come out.
pub fn buy(accounts: &mut BuySell, amount_in: u64, min_tokens_out: u64) -> (r: Result<
    Fill,
    CurveError,
>)
    requires
        old(accounts).buy_defined(amount_in),
    ensures
        r is Ok <==> old(accounts).buy_error(amount_in, min_tokens_out) is None,
        r matches Err(e) ==> old(accounts).buy_error(amount_in, min_tokens_out) == Some(e)
            && *final(accounts) == *old(accounts),
        r matches Ok(fill) ==> {
            let q = old(accounts).buy_quote(amount_in);
            &&& *final(accounts) == (BuySell {
                bonding_curve: old(accounts).bought(amount_in),
                ..*old(accounts)
            })
            &&& fill.sol == q.sol_in
            &&& fill.tokens == q.tokens_out
            &&& fill.tokens >= min_tokens_out
            &&& fill.fee == q.fee
            &&& fill.actions@ == old(accounts).buy_actions(amount_in)
        },
        r matches Ok(fill) ==> {
            let c = old(accounts).bonding_curve;
            let b = final(accounts).bonding_curve;
            let config = old(accounts).global_config;
            &&& fill.sol == b.real_sol_reserves - c.real_sol_reserves
            &&& fill.tokens == c.real_token_reserves - b.real_token_reserves
            &&& crate::laws::relations::smaller_of(
                fill.fee + fill.sol,
                amount_in as int,
                config.target_cap - c.real_sol_reserves,
            )
            &&& crate::laws::relations::share_of(
                fill.fee as int,
                fill.fee + fill.sol,
                config.fee_bps as int,
            )
            &&& fill.sol > 0 ==> crate::laws::relations::least_above(
                b.virtual_token_reserves as int,
                b.virtual_sol_reserves as int,
                c.virtual_sol_reserves * c.virtual_token_reserves,
            )
        },
{
    let paid: u64 = match accounts.check_buy(amount_in) {
        Err(e) => return Err(e),
        Ok(paid) => paid,
    };
    let fee: u64 = compute_fee(paid, accounts.global_config.fee_bps);
    if fee > paid {
        return Err(CurveError::MathOverflow);
    }
    let sol_in: u64 = paid - fee;
    let new_virtual_sol: u64 = match accounts.bonding_curve.virtual_sol_reserves.checked_add(
        sol_in,
    ) {
        None => return Err(CurveError::MathOverflow),
        Some(new_virtual_sol) => new_virtual_sol,
    };
    let new_virtual_token: u64 = token_reserve(
        accounts.bonding_curve.virtual_sol_reserves,
        accounts.bonding_curve.virtual_token_reserves,
        new_virtual_sol,
    );
    let tokens_out: u64 = match accounts.bonding_curve.virtual_token_reserves.checked_sub(
        new_virtual_token,
    ) {
        None => return Err(CurveError::MathOverflow),
        Some(tokens_out) => tokens_out,
    };
    if tokens_out < min_tokens_out {
        return Err(CurveError::SlippageExceeded);
    }
    if tokens_out > accounts.bonding_curve.real_token_reserves {
        return Err(CurveError::InsufficientTokens);
    }

    accounts.bonding_curve.virtual_sol_reserves = new_virtual_sol;
    accounts.bonding_curve.virtual_token_reserves = new_virtual_token;
    accounts.bonding_curve.real_sol_reserves = accounts.bonding_curve.real_sol_reserves + sol_in;
    accounts.bonding_curve.real_token_reserves =
        accounts.bonding_curve.real_token_reserves - tokens_out;
    accounts.bonding_curve.total_fees_collected =
        accounts.bonding_curve.total_fees_collected.saturating_add(fee);
    if accounts.bonding_curve.real_sol_reserves >= accounts.global_config.target_cap {
        accounts.bonding_curve.complete = true;
    }

    let mut actions: Vec<Action> = Vec::new();
    if fee > 0 {
        actions.push(
            Action::TransferSol {
                from: accounts.user,
                to: accounts.fee_recipient,
                lamports: fee,
                signing: Signing::Wallets,
            },
        );
    }
    actions.push(
        Action::TransferSol {
            from: accounts.user,
            to: accounts.sol_vault,
            lamports: sol_in,
            signing: Signing::Wallets,
        },
    );
    actions.push(
        Action::TransferTokens {
            from: accounts.curve_token_account,
            to: accounts.user_token_account,
            authority: accounts.bonding_curve_key,
            amount: tokens_out,
            signing: Signing::Curve { mint: accounts.mint, bump: accounts.bumps.bonding_curve },
        },
    );
    assert(actions@ =~= old(accounts).buy_actions(amount_in));
    proof {
        crate::laws::buying::accepted_purchases(*old(accounts), amount_in, min_tokens_out);
        crate::laws::buying::purchases_are_priced(*old(accounts), amount_in);
    }
    Ok(Fill { sol: sol_in, tokens: tokens_out, fee, actions })
}

/// Sells `amount_tokens` tokens. The fee is taken out of what the curve pays.
/// Refused where less than `min_sol_out` lamports are left for the seller.
pub fn sell(accounts: &mut BuySell, amount_tokens: u64, min_sol_out: u64) -> (r: Result<
    Fill,
    CurveError,
>)
    requires
        old(accounts).sell_defined(amount_tokens),
    ensures
        r is Ok <==> old(accounts).sell_error(amount_tokens, min_sol_out) is None,
        r matches Err(e) ==> old(accounts).sell_error(amount_tokens, min_sol_out) == Some(e)
            && *final(accounts) == *old(accounts),
        r matches Ok(fill) ==> {
            let q = old(accounts).sell_quote(amount_tokens);
            &&& *final(accounts) == (BuySell {
                bonding_curve: old(accounts).sold(amount_tokens),
                ..*old(accounts)
            })
            &&& fill.sol == q.net_sol_out
            &&& fill.sol >= min_sol_out
            &&& fill.tokens == amount_tokens
            &&& fill.fee == q.fee
            &&& fill.actions@ == old(accounts).sell_actions(amount_tokens)
        },
        r matches Ok(fill) ==> {
            let c = old(accounts).bonding_curve;
            let b = final(accounts).bonding_curve;
            &&& fill.fee + fill.sol == c.real_sol_reserves - b.real_sol_reserves
            &&& fill.tokens == b.real_token_reserves - c.real_token_reserves
            &&& crate::laws::relations::share_of(
                fill.fee as int,
                fill.fee + fill.sol,
                old(accounts).global_config.fee_bps as int,
            )
            &&& crate::laws::relations::greatest_within(
                b.virtual_sol_reserves as int,
                b.virtual_token_reserves as int,
                c.virtual_sol_reserves * c.virtual_token_reserves,
            )
        },
{
    match accounts.check_gate(amount_tokens) {
        Err(e) => return Err(e),
        Ok(()) => {},
    }
    let new_virtual_token: u64 = match accounts.bonding_curve.virtual_token_reserves.checked_add(
        amount_tokens,
    ) {
        None => return Err(CurveError::MathOverflow),
        Some(new_virtual_token) => new_virtual_token,
    };
    let new_virtual_sol: u64 = sol_reserve(
        accounts.bonding_curve.virtual_sol_reserves,
        accounts.bonding_curve.virtual_token_reserves,
        new_virtual_token,
    );
    let sol_out: u64 = accounts.bonding_curve.virtual_sol_reserves - new_virtual_sol;
    let fee: u64 = compute_fee(sol_out, accounts.global_config.fee_bps);
    if fee > sol_out {
        return Err(CurveError::MathOverflow);
    }
    let net_sol_out: u64 = sol_out - fee;
    if net_sol_out < min_sol_out {
        return Err(CurveError::SlippageExceeded);
    }
    if sol_out > accounts.bonding_curve.real_sol_reserves {
        return Err(CurveError::InsufficientSol);
    }
    let new_real_token: u64 = match accounts.bonding_curve.real_token_reserves.checked_add(
        amount_tokens,
    ) {
        None => return Err(CurveError::MathOverflow),
        Some(new_real_token) => new_real_token,
    };

    accounts.bonding_curve.virtual_sol_reserves = new_virtual_sol;
    accounts.bonding_curve.virtual_token_reserves = new_virtual_token;
    accounts.bonding_curve.real_sol_reserves = accounts.bonding_curve.real_sol_reserves - sol_out;
    accounts.bonding_curve.real_token_reserves = new_real_token;
    accounts.bonding_curve.total_fees_collected =
        accounts.bonding_curve.total_fees_collected.saturating_add(fee);

    let vault_signs = Signing::Vault { mint: accounts.mint, bump: accounts.bumps.sol_vault };
    let mut actions: Vec<Action> = Vec::new();
    actions.push(
        Action::TransferTokens {
            from: accounts.user_token_account,
            to: accounts.curve_token_account,
            authority: accounts.user,
            amount: amount_tokens,
            signing: Signing::Wallets,
        },
    );
    actions.push(
        Action::TransferSol {
            from: accounts.sol_vault,
            to: accounts.user,
            lamports: net_sol_out,
            signing: vault_signs,
        },
    );
    if fee > 0 {
        actions.push(
            Action::TransferSol {
                from: accounts.sol_vault,
                to: accounts.fee_recipient,
                lamports: fee,
                signing: vault_signs,
            },
        );
    }
    assert(actions@ =~= old(accounts).sell_actions(amount_tokens));
    proof {
        crate::laws::selling::accepted_sales(*old(accounts), amount_tokens, min_sol_out);
        crate::laws::selling::sales_are_priced(*old(accounts), amount_tokens);
    }
    Ok(Fill { sol: net_sol_out, tokens: amount_tokens, fee, actions })
}

} // verus!
