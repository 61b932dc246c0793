//! What the account operations of the instructions move, and that it agrees with
//! the records.

use vstd::prelude::*;

use crate::actions::Action;
use crate::constants::TOTAL_TOKEN_SUPPLY;
use crate::curve::{BondingCurve, CreatePool};
use crate::migration::Migrate;
use crate::trade::BuySell;

verus! {

/// Whether the vaults of a pool hold what its record says: the SOL raised on top of
/// the rent, and the tokens left.
pub open spec fn backed(curve: BondingCurve, lamports: int, tokens: int, rent: int) -> bool {
    &&& lamports >= rent + curve.real_sol_reserves
    &&& tokens >= curve.real_token_reserves
}

/// A new pool is backed: its vault receives the rent and its token account the
/// whole supply.
pub proof fn new_pool_is_backed(
    p: CreatePool,
    curve: BondingCurve,
    metadata_uri: String,
    quote_type: u8,
    now: i64,
    actions: Seq<Action>,
    vault_rent: u64,
)
    requires
        p.is_created(curve, metadata_uri, quote_type, now),
        p.is_funding(actions, vault_rent),
        p.sol_vault@ != p.creator@,
    ensures
        crate::actions::lamports_into(actions, p.sol_vault@) == vault_rent,
        crate::actions::tokens_into(actions, p.curve_token_account@) == TOTAL_TOKEN_SUPPLY,
        backed(
            curve,
            crate::actions::lamports_into(actions, p.sol_vault@),
            crate::actions::tokens_into(actions, p.curve_token_account@),
            vault_rent as int,
        ),
{
    assert(actions =~= seq![actions[0], actions[1], actions[2]]);
    lemma_three(actions[0], actions[1], actions[2], p.sol_vault@);
    lemma_three(actions[0], actions[1], actions[2], p.curve_token_account@);
}

proof fn lemma_two(x: Action, y: Action, account: Seq<u8>)
    ensures
        crate::actions::lamports_into(seq![x, y], account) == x.lamports_into(account)
            + y.lamports_into(account),
        crate::actions::tokens_into(seq![x, y], account) == x.tokens_into(account)
            + y.tokens_into(account),
{
    let empty = Seq::<Action>::empty();
    crate::actions::lemma_push_action(empty, x, account);
    crate::actions::lemma_push_action(empty.push(x), y, account);
    assert(seq![x, y] =~= empty.push(x).push(y));
}

proof fn lemma_three(x: Action, y: Action, z: Action, account: Seq<u8>)
    ensures
        crate::actions::lamports_into(seq![x, y, z], account) == x.lamports_into(account)
            + y.lamports_into(account) + z.lamports_into(account),
        crate::actions::tokens_into(seq![x, y, z], account) == x.tokens_into(account)
            + y.tokens_into(account) + z.tokens_into(account),
{
    lemma_two(x, y, account);
    crate::actions::lemma_push_action(seq![x, y], z, account);
    assert(seq![x, y, z] =~= seq![x, y].push(z));
}

/// What the operations of a purchase add to an account.
pub(crate) proof fn lemma_buy_actions(a: BuySell, amount_in: u64, account: Seq<u8>)
    requires
        a.buy_quote(amount_in).fee >= 0,
    ensures
        ({
            let q = a.buy_quote(amount_in);
            let actions = a.buy_actions(amount_in);
            &&& crate::actions::lamports_into(actions, account) == crate::actions::moved(
                a.user@,
                a.fee_recipient@,
                (q.fee as u64) as int,
                account,
            ) + crate::actions::moved(
                a.user@,
                a.sol_vault@,
                (q.sol_in as u64) as int,
                account,
            )
            &&& crate::actions::tokens_into(actions, account) == crate::actions::moved(
                a.curve_token_account@,
                a.user_token_account@,
                (q.tokens_out as u64) as int,
                account,
            )
        }),
{
    let actions = a.buy_actions(amount_in);
    if a.buy_quote(amount_in).fee > 0 {
        assert(actions =~= seq![actions[0], actions[1], actions[2]]);
        lemma_three(actions[0], actions[1], actions[2], account);
    } else {
        assert(actions =~= seq![actions[0], actions[1]]);
        lemma_two(actions[0], actions[1], account);
    }
}

/// What the operations of a sale add to an account.
pub(crate) proof fn lemma_sell_actions(a: BuySell, amount_tokens: u64, account: Seq<u8>)
    requires
        a.sell_quote(amount_tokens).fee >= 0,
    ensures
        ({
            let q = a.sell_quote(amount_tokens);
            let actions = a.sell_actions(amount_tokens);
            &&& crate::actions::lamports_into(actions, account) == crate::actions::moved(
                a.sol_vault@,
                a.user@,
                (q.net_sol_out as u64) as int,
                account,
            ) + crate::actions::moved(
                a.sol_vault@,
                a.fee_recipient@,
                (q.fee as u64) as int,
                account,
            )
            &&& crate::actions::tokens_into(actions, account) == crate::actions::moved(
                a.user_token_account@,
                a.curve_token_account@,
                amount_tokens as int,
                account,
            )
        }),
{
    let actions = a.sell_actions(amount_tokens);
    if a.sell_quote(amount_tokens).fee > 0 {
        assert(actions =~= seq![actions[0], actions[1], actions[2]]);
        lemma_three(actions[0], actions[1], actions[2], account);
    } else {
        assert(actions =~= seq![actions[0], actions[1]]);
        lemma_two(actions[0], actions[1], account);
    }
}

/// The operations of a purchase change the vaults exactly as the record says, so a
/// backed pool stays backed.
pub proof fn buy_settles(
    a: BuySell,
    amount_in: u64,
    min_tokens_out: u64,
    lamports: int,
    tokens: int,
    rent: int,
)
    requires
        crate::laws::pricing::accepts_buy(a, amount_in, min_tokens_out),
        a.sol_vault@ != a.user@,
        a.sol_vault@ != a.fee_recipient@,
        a.curve_token_account@ != a.user_token_account@,
    ensures
        ({
            let c = a.bonding_curve;
            let b = a.bought(amount_in);
            let sol = crate::actions::lamports_into(a.buy_actions(amount_in), a.sol_vault@);
            let tok = crate::actions::tokens_into(
                a.buy_actions(amount_in),
                a.curve_token_account@,
            );
            &&& sol == b.real_sol_reserves - c.real_sol_reserves
            &&& tok == b.real_token_reserves - c.real_token_reserves
            &&& backed(c, lamports, tokens, rent) ==> backed(
                b,
                lamports + sol,
                tokens + tok,
                rent,
            )
        }),
{
    let q = a.buy_quote(amount_in);
    crate::laws::pricing::lemma_fee_nonnegative(q.paid, a.global_config.fee_bps as int);
    lemma_buy_actions(a, amount_in, a.sol_vault@);
    lemma_buy_actions(a, amount_in, a.curve_token_account@);
}

/// A buyer pays what was priced and gets the tokens; the fee recipient gets the fee.
pub proof fn buyer_pays_and_receives(a: BuySell, amount_in: u64, min_tokens_out: u64)
    requires
        crate::laws::pricing::accepts_buy(a, amount_in, min_tokens_out),
        a.sol_vault@ != a.user@,
        a.sol_vault@ != a.fee_recipient@,
        a.user@ != a.fee_recipient@,
        a.curve_token_account@ != a.user_token_account@,
    ensures
        ({
            let q = a.buy_quote(amount_in);
            let actions = a.buy_actions(amount_in);
            &&& crate::actions::lamports_into(actions, a.user@) == -q.paid
            &&& crate::actions::lamports_into(actions, a.fee_recipient@) == q.fee
            &&& crate::actions::tokens_into(actions, a.user_token_account@) == q.tokens_out
            &&& q.tokens_out >= min_tokens_out
        }),
{
    let q = a.buy_quote(amount_in);
    crate::laws::pricing::lemma_fee_nonnegative(q.paid, a.global_config.fee_bps as int);
    lemma_buy_actions(a, amount_in, a.user@);
    lemma_buy_actions(a, amount_in, a.fee_recipient@);
    lemma_buy_actions(a, amount_in, a.user_token_account@);
}

/// The operations of a sale change the vaults exactly as the record says, so a
/// backed pool stays backed, and its vault can pay.
pub proof fn sell_settles(
    a: BuySell,
    amount_tokens: u64,
    min_sol_out: u64,
    lamports: int,
    tokens: int,
    rent: int,
)
    requires
        crate::laws::pricing::accepts_sell(a, amount_tokens, min_sol_out),
        a.sol_vault@ != a.user@,
        a.sol_vault@ != a.fee_recipient@,
        a.curve_token_account@ != a.user_token_account@,
    ensures
        ({
            let c = a.bonding_curve;
            let b = a.sold(amount_tokens);
            let sol = crate::actions::lamports_into(a.sell_actions(amount_tokens), a.sol_vault@);
            let tok = crate::actions::tokens_into(
                a.sell_actions(amount_tokens),
                a.curve_token_account@,
            );
            &&& sol == b.real_sol_reserves - c.real_sol_reserves
            &&& tok == b.real_token_reserves - c.real_token_reserves
            &&& backed(c, lamports, tokens, rent) ==> backed(
                b,
                lamports + sol,
                tokens + tok,
                rent,
            ) && lamports + sol >= rent
        }),
{
    let c = a.bonding_curve;
    let q = a.sell_quote(amount_tokens);
    crate::laws::pricing::lemma_sol_reserve(
        c.virtual_sol_reserves as int,
        c.virtual_token_reserves as int,
        amount_tokens as int,
    );
    crate::laws::pricing::lemma_fee_nonnegative(q.sol_out, a.global_config.fee_bps as int);
    lemma_sell_actions(a, amount_tokens, a.sol_vault@);
    lemma_sell_actions(a, amount_tokens, a.curve_token_account@);
}

/// A seller hands over the tokens and gets what was priced; the fee recipient gets
/// the fee.
pub proof fn seller_pays_and_receives(a: BuySell, amount_tokens: u64, min_sol_out: u64)
    requires
        crate::laws::pricing::accepts_sell(a, amount_tokens, min_sol_out),
        a.sol_vault@ != a.user@,
        a.sol_vault@ != a.fee_recipient@,
        a.user@ != a.fee_recipient@,
        a.curve_token_account@ != a.user_token_account@,
    ensures
        ({
            let q = a.sell_quote(amount_tokens);
            let actions = a.sell_actions(amount_tokens);
            &&& crate::actions::lamports_into(actions, a.user@) == q.net_sol_out
            &&& crate::actions::lamports_into(actions, a.fee_recipient@) == q.fee
            &&& crate::actions::tokens_into(actions, a.user_token_account@) == -amount_tokens
            &&& q.net_sol_out >= min_sol_out
        }),
{
    let c = a.bonding_curve;
    let q = a.sell_quote(amount_tokens);
    crate::laws::pricing::lemma_sol_reserve(
        c.virtual_sol_reserves as int,
        c.virtual_token_reserves as int,
        amount_tokens as int,
    );
    crate::laws::pricing::lemma_fee_nonnegative(q.sol_out, a.global_config.fee_bps as int);
    lemma_sell_actions(a, amount_tokens, a.user@);
    lemma_sell_actions(a, amount_tokens, a.fee_recipient@);
    lemma_sell_actions(a, amount_tokens, a.user_token_account@);
}

/// A migration empties both vaults, to the last lamport and token, into the
/// accounts of the migration wallet.
pub proof fn migration_moves_everything(m: Migrate)
    requires
        m.sol_vault@ != m.migration_wallet@,
        m.curve_token_account@ != m.migration_token_account@,
    ensures
        ({
            let actions = m.migrate_actions();
            &&& crate::actions::lamports_into(actions, m.sol_vault@) == -m.sol_balance
            &&& crate::actions::lamports_into(actions, m.migration_wallet@) == m.sol_balance
            &&& crate::actions::tokens_into(actions, m.curve_token_account@) == -m.token_balance
            &&& crate::actions::tokens_into(actions, m.migration_token_account@)
                == m.token_balance
        }),
{
    lemma_migrate_actions(m, m.sol_vault@);
    lemma_migrate_actions(m, m.migration_wallet@);
    lemma_migrate_actions(m, m.curve_token_account@);
    lemma_migrate_actions(m, m.migration_token_account@);
}

proof fn lemma_migrate_actions(m: Migrate, account: Seq<u8>)
    ensures
        crate::actions::lamports_into(m.migrate_actions(), account) == crate::actions::moved(
            m.sol_vault@,
            m.migration_wallet@,
            m.sol_balance as int,
            account,
        ),
        crate::actions::tokens_into(m.migrate_actions(), account) == crate::actions::moved(
            m.curve_token_account@,
            m.migration_token_account@,
            m.token_balance as int,
            account,
        ),
{
    let actions = m.migrate_actions();
    let empty = Seq::<Action>::empty();
    if m.sol_balance > 0 && m.token_balance > 0 {
        assert(actions =~= seq![actions[0], actions[1]]);
        lemma_two(actions[0], actions[1], account);
    } else if m.sol_balance > 0 || m.token_balance > 0 {
        assert(actions =~= empty.push(actions[0]));
        crate::actions::lemma_push_action(empty, actions[0], account);
    } else {
        assert(actions =~= empty);
    }
}

} // verus!
