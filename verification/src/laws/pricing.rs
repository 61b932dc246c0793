//! How trades move the reserves, what traders get, what fees and the target do.

use vstd::prelude::*;

use crate::constants::{
    FEE_BPS_MAX, TOTAL_TOKEN_SUPPLY, VIRTUAL_SOL_RESERVE, VIRTUAL_TOKEN_RESERVE,
};
use crate::trade::BuySell;

verus! {

/// Whether a purchase may be asked for and is accepted.
pub open spec fn accepts_buy(a: BuySell, amount_in: u64, min_tokens_out: u64) -> bool {
    &&& a.buy_defined(amount_in)
    &&& a.buy_error(amount_in, min_tokens_out) is None
}

/// Whether a sale may be asked for and is accepted.
pub open spec fn accepts_sell(a: BuySell, amount_tokens: u64, min_sol_out: u64) -> bool {
    &&& a.sell_defined(amount_tokens)
    &&& a.sell_error(amount_tokens, min_sol_out) is None
}

/// The new token reserve lies just above the old product.
pub(crate) proof fn lemma_token_reserve(sol: int, token: int, sol_in: int)
    requires
        sol >= 0,
        token >= 0,
        sol_in >= 0,
        sol + sol_in > 0,
    ensures
        ({
            let new_sol = sol + sol_in;
            let new_token = crate::trade::token_reserve_after(sol, token, sol_in);
            &&& new_token >= 1
            &&& new_sol * new_token > sol * token
            &&& new_sol * (new_token - 1) <= sol * token
            &&& new_token <= token + 1
            &&& sol_in > 0 && token > 0 ==> new_token <= token
            &&& token == 0 ==> new_token == 1
        }),
{
    let k = sol * token;
    let new_sol = sol + sol_in;
    let q = k / new_sol;
    assert(k >= 0) by (nonlinear_arith)
        requires
            sol >= 0,
            token >= 0,
            k == sol * token,
    ;
    vstd::arithmetic::div_mod::lemma_fundamental_div_mod(k, new_sol);
    assert(0 <= k % new_sol < new_sol);
    assert(new_sol * (q + 1) == new_sol * q + new_sol) by (nonlinear_arith);
    assert(q >= 0) by (nonlinear_arith)
        requires
            k >= 0,
            new_sol > 0,
            q == k / new_sol,
    ;
    assert(q <= token) by (nonlinear_arith)
        requires
            new_sol * q <= sol * token,
            sol <= new_sol,
            token >= 0,
            new_sol > 0,
    ;
    if sol_in > 0 && token > 0 {
        assert(q < token) by (nonlinear_arith)
            requires
                new_sol * q <= sol * token,
                sol < new_sol,
                sol >= 0,
                token > 0,
        ;
    }
}

/// The new SOL reserve lies just below the old product.
pub(crate) proof fn lemma_sol_reserve(sol: int, token: int, tokens_in: int)
    requires
        sol >= 0,
        token >= 0,
        tokens_in >= 0,
        token + tokens_in > 0,
    ensures
        ({
            let new_token = token + tokens_in;
            let new_sol = crate::trade::sol_reserve_after(sol, token, tokens_in);
            &&& 0 <= new_sol <= sol
            &&& new_sol * new_token <= sol * token
            &&& new_sol * new_token + new_token > sol * token
        }),
{
    let k = sol * token;
    let new_token = token + tokens_in;
    crate::trade::lemma_share_at_most(sol, token, new_token);
    vstd::arithmetic::div_mod::lemma_fundamental_div_mod(k, new_token);
    let q = k / new_token;
    assert(q * new_token == new_token * q) by (nonlinear_arith);
}

/// A fee of at most the whole leaves something, and grows no faster than what it
/// is taken from.
proof fn lemma_fee(x: int, y: int, fee_bps: int)
    requires
        0 <= x <= y,
        0 <= fee_bps <= FEE_BPS_MAX,
    ensures
        0 <= crate::trade::fee_on(x, fee_bps),
        crate::trade::fee_on(x, fee_bps) * 20 <= x,
        x - crate::trade::fee_on(x, fee_bps) <= y - crate::trade::fee_on(y, fee_bps),
{
    let p = x * fee_bps;
    let r = y * fee_bps;
    assert(0 <= p <= x * 500) by (nonlinear_arith)
        requires
            0 <= x,
            0 <= fee_bps <= 500,
            p == x * fee_bps,
    ;
    assert(0 <= r - p <= (y - x) * 500) by (nonlinear_arith)
        requires
            0 <= x <= y,
            0 <= fee_bps <= 500,
            p == x * fee_bps,
            r == y * fee_bps,
    ;
}

/// What an accepted purchase that puts SOL into the vault comes to.
pub(crate) proof fn lemma_bought(a: BuySell, amount_in: u64, min_tokens_out: u64)
    requires
        accepts_buy(a, amount_in, min_tokens_out),
        a.buy_quote(amount_in).sol_in > 0,
    ensures
        ({
            let c = a.bonding_curve;
            let b = a.bought(amount_in);
            let q = a.buy_quote(amount_in);
            &&& q.virtual_token == crate::trade::token_reserve_after(
                c.virtual_sol_reserves as int,
                c.virtual_token_reserves as int,
                q.sol_in,
            )
            &&& b.virtual_sol_reserves == c.virtual_sol_reserves + q.sol_in
            &&& b.virtual_token_reserves == q.virtual_token
            &&& b.virtual_token_reserves == c.virtual_token_reserves - q.tokens_out
            &&& 1 <= b.virtual_token_reserves <= c.virtual_token_reserves
            &&& b.product() > c.product()
        }),
{
    let c = a.bonding_curve;
    let q = a.buy_quote(amount_in);
    lemma_token_reserve(
        c.virtual_sol_reserves as int,
        c.virtual_token_reserves as int,
        q.sol_in,
    );
}

/// A purchase moves the virtual and the real reserves by the same amounts, so the
/// distance between them never changes, and a well-formed curve stays so.
pub proof fn buy_keeps_reserves_in_step(a: BuySell, amount_in: u64, min_tokens_out: u64)
    requires
        accepts_buy(a, amount_in, min_tokens_out),
    ensures
        ({
            let c = a.bonding_curve;
            let b = a.bought(amount_in);
            &&& b.virtual_sol_reserves - b.real_sol_reserves == c.virtual_sol_reserves
                - c.real_sol_reserves
            &&& b.virtual_token_reserves - b.real_token_reserves == c.virtual_token_reserves
                - c.real_token_reserves
            &&& c.wf() ==> b.wf()
        }),
{
}

/// A sale moves the virtual and the real reserves by the same amounts, so the
/// distance between them never changes, and a well-formed curve stays so.
pub proof fn sell_keeps_reserves_in_step(a: BuySell, amount_tokens: u64, min_sol_out: u64)
    requires
        accepts_sell(a, amount_tokens, min_sol_out),
    ensures
        ({
            let c = a.bonding_curve;
            let b = a.sold(amount_tokens);
            &&& b.virtual_sol_reserves - b.real_sol_reserves == c.virtual_sol_reserves
                - c.real_sol_reserves
            &&& b.virtual_token_reserves - b.real_token_reserves == c.virtual_token_reserves
                - c.real_token_reserves
            &&& c.wf() ==> b.wf()
        }),
{
    let c = a.bonding_curve;
    lemma_sol_reserve(
        c.virtual_sol_reserves as int,
        c.virtual_token_reserves as int,
        amount_tokens as int,
    );
}

/// A purchase that puts SOL into the vault raises the product of the reserves, and
/// by no more than the new SOL reserve: rounding favours the pool.
pub proof fn buy_raises_product(a: BuySell, amount_in: u64, min_tokens_out: u64)
    requires
        accepts_buy(a, amount_in, min_tokens_out),
        a.buy_quote(amount_in).sol_in > 0,
    ensures
        a.bonding_curve.product() < a.bought(amount_in).product() <= a.bonding_curve.product()
            + a.bought(amount_in).virtual_sol_reserves,
{
    let c = a.bonding_curve;
    let b = a.bought(amount_in);
    let q = a.buy_quote(amount_in);
    lemma_bought(a, amount_in, min_tokens_out);
    lemma_token_reserve(
        c.virtual_sol_reserves as int,
        c.virtual_token_reserves as int,
        q.sol_in,
    );
    assert(b.virtual_sol_reserves * (b.virtual_token_reserves - 1) == b.product()
        - b.virtual_sol_reserves) by (nonlinear_arith)
        requires
            b.product() == b.virtual_sol_reserves * b.virtual_token_reserves,
    ;
}

/// A sale keeps the product of the reserves up to rounding: it never raises it, and
/// lowers it by less than the new token reserve.
pub proof fn sell_keeps_product(a: BuySell, amount_tokens: u64, min_sol_out: u64)
    requires
        accepts_sell(a, amount_tokens, min_sol_out),
    ensures
        a.sold(amount_tokens).product() <= a.bonding_curve.product() < a.sold(
            amount_tokens,
        ).product() + a.sold(amount_tokens).virtual_token_reserves,
{
    let c = a.bonding_curve;
    lemma_sol_reserve(
        c.virtual_sol_reserves as int,
        c.virtual_token_reserves as int,
        amount_tokens as int,
    );
}

/// A purchase that puts SOL into the vault raises the price of a token, which is
/// the SOL reserve over the token reserve.
pub proof fn buy_raises_price(a: BuySell, amount_in: u64, min_tokens_out: u64)
    requires
        accepts_buy(a, amount_in, min_tokens_out),
        a.buy_quote(amount_in).sol_in > 0,
    ensures
        ({
            let c = a.bonding_curve;
            let b = a.bought(amount_in);
            b.virtual_sol_reserves * c.virtual_token_reserves > c.virtual_sol_reserves
                * b.virtual_token_reserves
        }),
{
    let c = a.bonding_curve;
    let b = a.bought(amount_in);
    lemma_bought(a, amount_in, min_tokens_out);
    assert(b.virtual_sol_reserves * c.virtual_token_reserves > c.virtual_sol_reserves
        * b.virtual_token_reserves) by (nonlinear_arith)
        requires
            b.virtual_sol_reserves > c.virtual_sol_reserves >= 0,
            c.virtual_token_reserves >= b.virtual_token_reserves >= 1,
    ;
}

/// A sale to a curve with a SOL reserve lowers the price of a token.
pub proof fn sell_lowers_price(a: BuySell, amount_tokens: u64, min_sol_out: u64)
    requires
        accepts_sell(a, amount_tokens, min_sol_out),
        a.bonding_curve.virtual_sol_reserves > 0,
    ensures
        ({
            let c = a.bonding_curve;
            let b = a.sold(amount_tokens);
            b.virtual_sol_reserves * c.virtual_token_reserves < c.virtual_sol_reserves
                * b.virtual_token_reserves
        }),
{
    let c = a.bonding_curve;
    let b = a.sold(amount_tokens);
    lemma_sol_reserve(
        c.virtual_sol_reserves as int,
        c.virtual_token_reserves as int,
        amount_tokens as int,
    );
    assert(b.virtual_sol_reserves * c.virtual_token_reserves < c.virtual_sol_reserves
        * b.virtual_token_reserves) by (nonlinear_arith)
        requires
            0 <= b.virtual_sol_reserves <= c.virtual_sol_reserves,
            c.virtual_sol_reserves > 0,
            b.virtual_token_reserves > c.virtual_token_reserves >= 0,
    ;
}

/// Buying and at once selling back what was bought never pays: no more SOL leaves
/// the vault than the purchase put in, whatever fee the sale is charged.
pub proof fn round_trip_never_profits(
    a: BuySell,
    amount_in: u64,
    min_tokens_out: u64,
    back: BuySell,
)
    requires
        accepts_buy(a, amount_in, min_tokens_out),
        a.buy_quote(amount_in).sol_in > 0,
        back.bonding_curve == a.bought(amount_in),
    ensures
        ({
            let q = a.buy_quote(amount_in);
            let s = back.sell_quote(q.tokens_out as u64);
            &&& s.sol_out <= q.sol_in
            &&& s.net_sol_out <= q.sol_in
        }),
{
    let c = a.bonding_curve;
    let b = a.bought(amount_in);
    let q = a.buy_quote(amount_in);
    let s = back.sell_quote(q.tokens_out as u64);
    lemma_bought(a, amount_in, min_tokens_out);
    let vt = c.virtual_token_reserves as int;
    assert(s.virtual_sol == b.product() / vt);
    assert(s.virtual_sol >= c.virtual_sol_reserves) by {
        vstd::arithmetic::div_mod::lemma_div_is_ordered(c.product(), b.product(), vt);
        vstd::arithmetic::div_mod::lemma_div_by_multiple(c.virtual_sol_reserves as int, vt);
    }
    lemma_sol_reserve(
        b.virtual_sol_reserves as int,
        b.virtual_token_reserves as int,
        q.tokens_out,
    );
    lemma_fee_nonnegative(s.sol_out, back.global_config.fee_bps as int);
}

pub(crate) proof fn lemma_fee_nonnegative(sol: int, fee_bps: int)
    requires
        sol >= 0,
        fee_bps >= 0,
    ensures
        crate::trade::fee_on(sol, fee_bps) >= 0,
{
    assert(sol * fee_bps >= 0) by (nonlinear_arith)
        requires
            sol >= 0,
            fee_bps >= 0,
    ;
}

/// Offering more SOL never gives fewer tokens.
pub proof fn more_sol_buys_no_fewer_tokens(
    a: BuySell,
    less: u64,
    more: u64,
    min_less: u64,
    min_more: u64,
)
    requires
        a.global_config.wf(),
        less <= more,
        accepts_buy(a, less, min_less),
        accepts_buy(a, more, min_more),
    ensures
        a.buy_quote(less).tokens_out <= a.buy_quote(more).tokens_out,
        a.buy_quote(less).paid <= a.buy_quote(more).paid,
{
    let c = a.bonding_curve;
    let x = a.buy_quote(less);
    let y = a.buy_quote(more);
    lemma_fee(x.paid, y.paid, a.global_config.fee_bps as int);
    lemma_fee(y.paid, y.paid, a.global_config.fee_bps as int);
    lemma_bought(a, less, min_less);
    lemma_bought(a, more, min_more);
    vstd::arithmetic::div_mod::lemma_div_is_ordered_by_denominator(
        c.product(),
        x.virtual_sol,
        y.virtual_sol,
    );
}

/// Selling more tokens never takes less SOL out of the vault, nor leaves less for
/// the seller.
pub proof fn more_tokens_fetch_no_less_sol(a: BuySell, less: u64, more: u64)
    requires
        a.global_config.wf(),
        0 < less <= more,
    ensures
        a.sell_quote(less).sol_out <= a.sell_quote(more).sol_out,
        a.sell_quote(less).net_sol_out <= a.sell_quote(more).net_sol_out,
{
    let c = a.bonding_curve;
    let x = a.sell_quote(less);
    let y = a.sell_quote(more);
    assert(c.product() >= 0) by (nonlinear_arith)
        requires
            c.product() == c.virtual_sol_reserves * c.virtual_token_reserves,
            c.virtual_sol_reserves >= 0,
            c.virtual_token_reserves >= 0,
    ;
    vstd::arithmetic::div_mod::lemma_div_is_ordered_by_denominator(
        c.product(),
        x.virtual_token,
        y.virtual_token,
    );
    lemma_sol_reserve(
        c.virtual_sol_reserves as int,
        c.virtual_token_reserves as int,
        less as int,
    );
    lemma_fee(x.sol_out, y.sol_out, a.global_config.fee_bps as int);
}

/// Splitting a purchase never pays: two purchases that together put as much SOL
/// into the vault as a single one give no more tokens than it.
pub proof fn splitting_a_buy_never_profits(
    a: BuySell,
    first: u64,
    min_first: u64,
    next: BuySell,
    second: u64,
    min_second: u64,
    whole: u64,
    min_whole: u64,
)
    requires
        accepts_buy(a, first, min_first),
        next.bonding_curve == a.bought(first),
        accepts_buy(next, second, min_second),
        accepts_buy(a, whole, min_whole),
        a.buy_quote(first).sol_in > 0,
        next.buy_quote(second).sol_in > 0,
        a.buy_quote(whole).sol_in == a.buy_quote(first).sol_in + next.buy_quote(second).sol_in,
    ensures
        a.buy_quote(first).tokens_out + next.buy_quote(second).tokens_out <= a.buy_quote(
            whole,
        ).tokens_out,
{
    lemma_bought(a, first, min_first);
    lemma_bought(next, second, min_second);
    lemma_bought(a, whole, min_whole);
    vstd::arithmetic::div_mod::lemma_div_is_ordered(
        a.bonding_curve.product(),
        next.bonding_curve.product(),
        a.buy_quote(whole).virtual_sol,
    );
}

/// Selling and at once buying back for the SOL that left the vault gains no more
/// than rounding: the tokens gained are worth less than one lamport.
pub proof fn selling_and_buying_back_gains_only_rounding(
    a: BuySell,
    amount_tokens: u64,
    min_sol_out: u64,
    back: BuySell,
    amount_in: u64,
    min_tokens_out: u64,
)
    requires
        accepts_sell(a, amount_tokens, min_sol_out),
        back.bonding_curve == a.sold(amount_tokens),
        accepts_buy(back, amount_in, min_tokens_out),
        back.buy_quote(amount_in).sol_in > 0,
        back.buy_quote(amount_in).sol_in == a.sell_quote(amount_tokens).sol_out,
    ensures
        (back.buy_quote(amount_in).tokens_out - amount_tokens)
            * a.bonding_curve.virtual_sol_reserves < a.bonding_curve.virtual_token_reserves
            + amount_tokens,
{
    let c = a.bonding_curve;
    let s = a.sold(amount_tokens);
    let b = back.bought(amount_in);
    let q = back.buy_quote(amount_in);
    lemma_sol_reserve(
        c.virtual_sol_reserves as int,
        c.virtual_token_reserves as int,
        amount_tokens as int,
    );
    lemma_bought(back, amount_in, min_tokens_out);
    assert(b.virtual_sol_reserves == c.virtual_sol_reserves);
    let vs = c.virtual_sol_reserves as int;
    let vt = c.virtual_token_reserves as int;
    let gain = q.tokens_out - amount_tokens;
    assert(b.virtual_token_reserves == vt - gain);
    assert(gain * vs == vs * vt - vs * (vt - gain)) by (nonlinear_arith);
    assert(s.product() + s.virtual_token_reserves > c.product());
}

/// A limit on the price only decides whether a trade happens, not what it comes to:
/// what is accepted under a limit is accepted under any looser one.
pub proof fn looser_limits_accept_more(
    a: BuySell,
    amount: u64,
    limit: u64,
    looser: u64,
)
    requires
        looser <= limit,
    ensures
        a.buy_error(amount, limit) is None ==> a.buy_error(amount, looser) is None,
        a.sell_error(amount, limit) is None ==> a.sell_error(amount, looser) is None,
{
}

/// Under a configuration that the instructions wrote, a fee is at most 5% of the
/// SOL that it is taken from, and a buyer's SOL is never all fee.
pub proof fn fees_are_capped(a: BuySell, amount: u64)
    requires
        a.global_config.wf(),
    ensures
        a.buy_gate_error(amount) is None ==> {
            let q = a.buy_quote(amount);
            0 <= q.fee * 20 <= q.paid && q.sol_in > 0
        },
        a.gate_error(amount) is None ==> {
            let q = a.sell_quote(amount);
            0 <= q.fee * 20 <= q.sol_out && q.net_sol_out >= 0
        },
{
    let c = a.bonding_curve;
    if a.buy_gate_error(amount) is None {
        let q = a.buy_quote(amount);
        lemma_fee(q.paid, q.paid, a.global_config.fee_bps as int);
    }
    if a.gate_error(amount) is None {
        let q = a.sell_quote(amount);
        lemma_sol_reserve(
            c.virtual_sol_reserves as int,
            c.virtual_token_reserves as int,
            amount as int,
        );
        lemma_fee(q.sol_out, q.sol_out, a.global_config.fee_bps as int);
    }
}

/// The records that the instructions write keep the arithmetic of trades defined,
/// as long as the amounts stay below the greatest that a fee can be taken from.
pub proof fn trades_are_defined(a: BuySell, amount: u64)
    requires
        a.global_config.wf(),
        a.bonding_curve.wf(),
    ensures
        a.global_config.target_cap * FEE_BPS_MAX <= u64::MAX ==> a.buy_defined(amount),
        a.bonding_curve.virtual_sol_reserves * FEE_BPS_MAX <= u64::MAX ==> a.sell_defined(amount),
{
    let c = a.bonding_curve;
    let f = a.global_config.fee_bps as int;
    if a.global_config.target_cap * FEE_BPS_MAX <= u64::MAX && a.buy_gate_error(amount) is None {
        let q = a.buy_quote(amount);
        assert(q.paid * f <= q.paid * 500) by (nonlinear_arith)
            requires
                q.paid >= 0,
                0 <= f <= 500,
        ;
    }
    if c.virtual_sol_reserves * FEE_BPS_MAX <= u64::MAX && a.gate_error(amount) is None {
        let q = a.sell_quote(amount);
        lemma_sol_reserve(
            c.virtual_sol_reserves as int,
            c.virtual_token_reserves as int,
            amount as int,
        );
        assert(q.sol_out * f <= q.sol_out * 500) by (nonlinear_arith)
            requires
                q.sol_out >= 0,
                0 <= f <= 500,
        ;
    }
}

/// A purchase never takes more than was offered, never raises the SOL raised above
/// the target, and graduates the pool exactly when it reaches the target: when it
/// offers at least what is missing and the fee on that rounds to nothing.
pub proof fn buy_stops_at_target(a: BuySell, amount_in: u64, min_tokens_out: u64)
    requires
        accepts_buy(a, amount_in, min_tokens_out),
    ensures
        ({
            let c = a.bonding_curve;
            let b = a.bought(amount_in);
            let q = a.buy_quote(amount_in);
            let missing = a.global_config.target_cap - c.real_sol_reserves;
            &&& q.paid <= amount_in
            &&& c.real_sol_reserves <= b.real_sol_reserves <= a.global_config.target_cap
            &&& b.complete <==> b.real_sol_reserves == a.global_config.target_cap
            &&& b.complete <==> amount_in >= missing && q.fee == 0
        }),
{
    let q = a.buy_quote(amount_in);
    lemma_fee_nonnegative(q.paid, a.global_config.fee_bps as int);
}

/// A pool whose product has not fallen below that of a new pool can take back every
/// token in circulation: what such a sale draws is covered by the SOL raised.
pub proof fn supply_in_circulation_is_covered(a: BuySell, amount_tokens: u64)
    requires
        a.bonding_curve.wf(),
        a.bonding_curve.product() >= VIRTUAL_SOL_RESERVE * VIRTUAL_TOKEN_RESERVE,
        amount_tokens + a.bonding_curve.real_token_reserves <= TOTAL_TOKEN_SUPPLY,
    ensures
        a.sell_quote(amount_tokens).sol_out <= a.bonding_curve.real_sol_reserves,
{
    let c = a.bonding_curve;
    let q = a.sell_quote(amount_tokens);
    let n = q.virtual_token;
    let p0 = VIRTUAL_SOL_RESERVE * n;
    assert(p0 <= VIRTUAL_SOL_RESERVE * VIRTUAL_TOKEN_RESERVE) by (nonlinear_arith)
        requires
            p0 == VIRTUAL_SOL_RESERVE * n,
            n <= VIRTUAL_TOKEN_RESERVE,
            VIRTUAL_SOL_RESERVE >= 0,
    ;
    vstd::arithmetic::div_mod::lemma_div_is_ordered(p0, c.product(), n);
    vstd::arithmetic::div_mod::lemma_div_by_multiple(VIRTUAL_SOL_RESERVE as int, n);
}

} // verus!
