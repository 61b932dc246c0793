//! What holds all along a sequence of trades.

use vstd::prelude::*;

use crate::actions::Action;
use crate::curve::BondingCurve;
use crate::trade::BuySell;

verus! {

/// One trade, with the accounts that it was asked for on.
pub enum Trade {
    Buy { accounts: BuySell, amount_in: u64, min_tokens_out: u64 },
    Sell { accounts: BuySell, amount_tokens: u64, min_sol_out: u64 },
}

impl Trade {
    /// The accounts before the trade.
    pub open spec fn accounts(self) -> BuySell {
        match self {
            Trade::Buy { accounts, .. } => accounts,
            Trade::Sell { accounts, .. } => accounts,
        }
    }

    /// Whether the trade is accepted.
    pub open spec fn accepted(self) -> bool {
        match self {
            Trade::Buy { accounts, amount_in, min_tokens_out } => {
                crate::laws::pricing::accepts_buy(accounts, amount_in, min_tokens_out)
            },
            Trade::Sell { accounts, amount_tokens, min_sol_out } => {
                crate::laws::pricing::accepts_sell(accounts, amount_tokens, min_sol_out)
            },
        }
    }

    /// The curve after the trade.
    pub open spec fn result(self) -> BondingCurve {
        match self {
            Trade::Buy { accounts, amount_in, .. } => accounts.bought(amount_in),
            Trade::Sell { accounts, amount_tokens, .. } => accounts.sold(amount_tokens),
        }
    }

    /// The operations that settle the trade.
    pub open spec fn actions(self) -> Seq<Action> {
        match self {
            Trade::Buy { accounts, amount_in, .. } => accounts.buy_actions(amount_in),
            Trade::Sell { accounts, amount_tokens, .. } => accounts.sell_actions(amount_tokens),
        }
    }

    /// Whether the trade goes through the given vaults, and neither is an account of
    /// the trader or of the fee recipient.
    pub open spec fn goes_through(self, sol_vault: Seq<u8>, token_vault: Seq<u8>) -> bool {
        let a = self.accounts();
        &&& a.sol_vault@ == sol_vault
        &&& a.curve_token_account@ == token_vault
        &&& a.user@ != sol_vault
        &&& a.fee_recipient@ != sol_vault
        &&& a.user_token_account@ != token_vault
    }
}

/// Whether `curves` are the states that accepted trades lead through.
pub open spec fn is_run(curves: Seq<BondingCurve>, trades: Seq<Trade>) -> bool {
    &&& curves.len() == trades.len() + 1
    &&& forall|i: int|
        0 <= i < trades.len() ==> {
            &&& (#[trigger] trades[i]).accounts().bonding_curve == curves[i]
            &&& trades[i].accepted()
            &&& curves[i + 1] == trades[i].result()
        }
}

/// Whether two curves are states of the same pool.
pub open spec fn same_pool(a: BondingCurve, b: BondingCurve) -> bool {
    &&& a.mint == b.mint
    &&& a.creator == b.creator
    &&& a.created_at == b.created_at
    &&& a.quote_type == b.quote_type
    &&& a.quote_mint == b.quote_mint
    &&& a.metadata_uri == b.metadata_uri
}

/// The lamports that the trades of a run add to an account.
pub open spec fn run_lamports(trades: Seq<Trade>, account: Seq<u8>) -> int
    decreases trades.len(),
{
    if trades.len() == 0 {
        0
    } else {
        run_lamports(trades.drop_last(), account) + crate::actions::lamports_into(
            trades.last().actions(),
            account,
        )
    }
}

/// The tokens that the trades of a run add to a token account.
pub open spec fn run_tokens(trades: Seq<Trade>, account: Seq<u8>) -> int
    decreases trades.len(),
{
    if trades.len() == 0 {
        0
    } else {
        run_tokens(trades.drop_last(), account) + crate::actions::tokens_into(
            trades.last().actions(),
            account,
        )
    }
}

/// A trade leaves the identity of the pool alone, and keeps its record sound.
pub proof fn trade_keeps_pool(trade: Trade)
    requires
        trade.accepted(),
    ensures
        same_pool(trade.accounts().bonding_curve, trade.result()),
        trade.accounts().bonding_curve.wf() ==> trade.result().wf(),
        trade.result().total_fees_collected
            >= trade.accounts().bonding_curve.total_fees_collected,
{
    match trade {
        Trade::Buy { accounts, amount_in, min_tokens_out } => {
            crate::laws::pricing::buy_keeps_reserves_in_step(accounts, amount_in, min_tokens_out);
            crate::laws::pricing::lemma_fee_nonnegative(
                accounts.buy_quote(amount_in).paid,
                accounts.global_config.fee_bps as int,
            );
        },
        Trade::Sell { accounts, amount_tokens, min_sol_out } => {
            let c = accounts.bonding_curve;
            crate::laws::pricing::sell_keeps_reserves_in_step(
                accounts,
                amount_tokens,
                min_sol_out,
            );
            crate::laws::pricing::lemma_sol_reserve(
                c.virtual_sol_reserves as int,
                c.virtual_token_reserves as int,
                amount_tokens as int,
            );
            crate::laws::pricing::lemma_fee_nonnegative(
                accounts.sell_quote(amount_tokens).sol_out,
                accounts.global_config.fee_bps as int,
            );
        },
    }
}

/// All along a run the pool stays the same and its record sound, the fees collected
/// never fall, and only its last state can be that of a graduated pool.
pub proof fn runs_keep_pool(curves: Seq<BondingCurve>, trades: Seq<Trade>)
    requires
        is_run(curves, trades),
        curves[0].wf(),
    ensures
        forall|i: int|
            0 <= i < curves.len() ==> {
                &&& (#[trigger] curves[i]).wf()
                &&& same_pool(curves[0], curves[i])
                &&& curves[i].total_fees_collected >= curves[0].total_fees_collected
                &&& i < trades.len() ==> !curves[i].complete
            },
    decreases trades.len(),
{
    if trades.len() > 0 {
        let n = trades.len() - 1;
        let before = curves.drop_last();
        let rest = trades.drop_last();
        assert forall|i: int| 0 <= i < rest.len() implies {
            &&& (#[trigger] rest[i]).accounts().bonding_curve == before[i]
            &&& rest[i].accepted()
            &&& before[i + 1] == rest[i].result()
        } by {
            assert(rest[i] == trades[i]);
        }
        runs_keep_pool(before, rest);
        assert(trades[n].accepted());
        trade_keeps_pool(trades[n]);
        assert(before[n].wf());
        assert forall|i: int| 0 <= i < curves.len() implies {
            &&& (#[trigger] curves[i]).wf()
            &&& same_pool(curves[0], curves[i])
            &&& curves[i].total_fees_collected >= curves[0].total_fees_collected
            &&& i < trades.len() ==> !curves[i].complete
        } by {
            if i <= n {
                assert(before[i] == curves[i]);
            }
        }
    }
}

/// Over a run the vaults gain exactly what the record gains, so a backed pool stays
/// backed.
pub proof fn runs_stay_backed(
    curves: Seq<BondingCurve>,
    trades: Seq<Trade>,
    sol_vault: Seq<u8>,
    token_vault: Seq<u8>,
    lamports: int,
    tokens: int,
    rent: int,
)
    requires
        is_run(curves, trades),
        forall|i: int|
            0 <= i < trades.len() ==> (#[trigger] trades[i]).goes_through(sol_vault, token_vault),
    ensures
        run_lamports(trades, sol_vault) == curves.last().real_sol_reserves
            - curves[0].real_sol_reserves,
        run_tokens(trades, token_vault) == curves.last().real_token_reserves
            - curves[0].real_token_reserves,
        crate::laws::settlement::backed(curves[0], lamports, tokens, rent)
            ==> crate::laws::settlement::backed(
            curves.last(),
            lamports + run_lamports(trades, sol_vault),
            tokens + run_tokens(trades, token_vault),
            rent,
        ),
    decreases trades.len(),
{
    if trades.len() > 0 {
        let n = trades.len() - 1;
        let before = curves.drop_last();
        let rest = trades.drop_last();
        assert forall|i: int| 0 <= i < rest.len() implies {
            &&& (#[trigger] rest[i]).accounts().bonding_curve == before[i]
            &&& rest[i].accepted()
            &&& before[i + 1] == rest[i].result()
            &&& rest[i].goes_through(sol_vault, token_vault)
        } by {
            assert(rest[i] == trades[i]);
        }
        runs_stay_backed(before, rest, sol_vault, token_vault, lamports, tokens, rent);
        assert(trades[n].goes_through(sol_vault, token_vault));
        match trades[n] {
            Trade::Buy { accounts, amount_in, min_tokens_out } => {
                crate::laws::settlement::buy_settles(
                    accounts,
                    amount_in,
                    min_tokens_out,
                    lamports,
                    tokens,
                    rent,
                );
            },
            Trade::Sell { accounts, amount_tokens, min_sol_out } => {
                crate::laws::settlement::sell_settles(
                    accounts,
                    amount_tokens,
                    min_sol_out,
                    lamports,
                    tokens,
                    rent,
                );
            },
        }
    }
}

} // verus!
