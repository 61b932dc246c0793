use moonflux_curve::{
    buy, sell, Action, BondingCurve, BuySell, CurveError, GlobalConfig, PoolBumps, Pubkey,
    QuoteType, Signing,
};

fn key(b: u8) -> Pubkey {
    Pubkey { bytes: [b; 32] }
}

fn config(fee_bps: u16, target_cap: u64) -> GlobalConfig {
    GlobalConfig {
        admin: key(1),
        fee_recipient: key(2),
        fee_bps,
        target_cap,
        target_cap_usdc: 69_000_000_000,
        paused: false,
        usdc_mint: key(3),
        usdt_mint: key(4),
    }
}

fn fresh(fee_bps: u16, target_cap: u64) -> BuySell {
    BuySell {
        bonding_curve: BondingCurve {
            mint: key(5),
            creator: key(6),
            virtual_sol_reserves: 30_000_000_000,
            virtual_token_reserves: 1_073_000_000_000_000,
            real_sol_reserves: 0,
            real_token_reserves: 1_000_000_000_000_000,
            complete: false,
            total_fees_collected: 0,
            created_at: 1_700_000_000,
            quote_type: QuoteType::Sol,
            quote_mint: key(0),
            metadata_uri: String::from("ipfs://x"),
        },
        bonding_curve_key: key(7),
        sol_vault: key(8),
        curve_token_account: key(9),
        user_token_account: key(10),
        mint: key(5),
        user: key(11),
        global_config: config(fee_bps, target_cap),
        fee_recipient: key(2),
        bumps: PoolBumps { bonding_curve: 254, sol_vault: 253 },
    }
}

const CAP: u64 = 85_000_000_000;
const SOL: u64 = 1_000_000_000;

#[test]
fn buy_prices_along_the_curve() {
    let mut a = fresh(100, CAP);
    assert!(a.buy_is_defined(SOL));
    let fill = buy(&mut a, SOL, 34_277_831_558_567).unwrap();
    assert_eq!(fill.sol, 990_000_000);
    assert_eq!(fill.fee, 10_000_000);
    assert_eq!(fill.tokens, 34_277_831_558_567);
    let mut want = fresh(100, CAP);
    want.bonding_curve.virtual_sol_reserves = 30_990_000_000;
    want.bonding_curve.virtual_token_reserves = 1_038_722_168_441_433;
    want.bonding_curve.real_sol_reserves = 990_000_000;
    want.bonding_curve.real_token_reserves = 965_722_168_441_433;
    want.bonding_curve.total_fees_collected = 10_000_000;
    assert_eq!(a, want);
}

#[test]
fn buy_asks_for_fee_payment_and_tokens_in_order() {
    let mut a = fresh(100, CAP);
    let fill = buy(&mut a, SOL, 0).unwrap();
    assert_eq!(
        fill.actions,
        vec![
            Action::TransferSol {
                from: key(11),
                to: key(2),
                lamports: 10_000_000,
                signing: Signing::Wallets,
            },
            Action::TransferSol {
                from: key(11),
                to: key(8),
                lamports: 990_000_000,
                signing: Signing::Wallets,
            },
            Action::TransferTokens {
                from: key(9),
                to: key(10),
                authority: key(7),
                amount: 34_277_831_558_567,
                signing: Signing::Curve { mint: key(5), bump: 254 },
            },
        ]
    );
}

#[test]
fn buy_without_a_fee_asks_for_no_fee_transfer() {
    let mut a = fresh(0, CAP);
    let fill = buy(&mut a, SOL, 0).unwrap();
    assert_eq!(fill.fee, 0);
    assert_eq!(fill.actions.len(), 2);
    assert_eq!(a.bonding_curve.total_fees_collected, 0);
}

#[test]
fn buy_takes_no_more_than_is_missing() {
    let mut a = fresh(100, CAP);
    let fill = buy(&mut a, 100 * SOL, 0).unwrap();
    assert_eq!(fill.fee, 850_000_000);
    assert_eq!(fill.sol, 84_150_000_000);
    assert_eq!(fill.tokens, 791_002_628_120_893);
    assert_eq!(a.bonding_curve.real_sol_reserves, 84_150_000_000);
    assert!(!a.bonding_curve.complete);
}

#[test]
fn buy_that_reaches_the_target_graduates() {
    let mut a = fresh(0, SOL);
    let fill = buy(&mut a, 5 * SOL, 0).unwrap();
    assert_eq!(fill.sol, SOL);
    assert_eq!(fill.tokens, 34_612_903_225_806);
    assert_eq!(a.bonding_curve.real_sol_reserves, SOL);
    assert!(a.bonding_curve.complete);
    assert_eq!(buy(&mut a, 1, 0), Err(CurveError::CurveComplete));
    assert_eq!(sell(&mut a, 1, 0), Err(CurveError::CurveComplete));
}

#[test]
fn last_lamports_graduate_when_their_fee_rounds_to_nothing() {
    let mut a = fresh(100, CAP);
    a.bonding_curve.real_sol_reserves = CAP - 99;
    a.bonding_curve.virtual_sol_reserves = 30 * SOL + CAP - 99;
    let fill = buy(&mut a, SOL, 0).unwrap();
    assert_eq!(fill.fee, 0);
    assert_eq!(fill.sol, 99);
    assert!(a.bonding_curve.complete);

    let mut b = fresh(100, CAP);
    b.bonding_curve.real_sol_reserves = CAP - 100;
    b.bonding_curve.virtual_sol_reserves = 30 * SOL + CAP - 100;
    let fill = buy(&mut b, SOL, 0).unwrap();
    assert_eq!(fill.fee, 1);
    assert!(!b.bonding_curve.complete);
}

#[test]
fn buy_at_the_target_is_refused() {
    let mut a = fresh(100, CAP);
    a.bonding_curve.real_sol_reserves = CAP;
    assert_eq!(buy(&mut a, SOL, 0), Err(CurveError::CurveComplete));
    a.bonding_curve.real_sol_reserves = CAP + 1;
    assert_eq!(buy(&mut a, SOL, 0), Err(CurveError::CurveComplete));
}

#[test]
fn gates_are_checked_in_order() {
    let mut a = fresh(100, CAP);
    a.bonding_curve.quote_type = QuoteType::Usdc;
    assert_eq!(buy(&mut a, SOL, 0), Err(CurveError::UnsupportedQuoteType));
    assert_eq!(sell(&mut a, SOL, 0), Err(CurveError::UnsupportedQuoteType));
    assert_eq!(buy(&mut a, 0, 0), Err(CurveError::InvalidAmount));
    assert_eq!(sell(&mut a, 0, 0), Err(CurveError::InvalidAmount));
    a.bonding_curve.complete = true;
    assert_eq!(buy(&mut a, 0, 0), Err(CurveError::CurveComplete));
    assert_eq!(sell(&mut a, 0, 0), Err(CurveError::CurveComplete));
    a.global_config.paused = true;
    assert_eq!(buy(&mut a, 0, 0), Err(CurveError::ProgramPaused));
    assert_eq!(sell(&mut a, 0, 0), Err(CurveError::ProgramPaused));
    a.fee_recipient = key(12);
    assert_eq!(buy(&mut a, 0, 0), Err(CurveError::InvalidFeeRecipient));
    assert_eq!(sell(&mut a, 0, 0), Err(CurveError::InvalidFeeRecipient));
}

#[test]
fn fee_recipient_that_differs_in_one_byte_is_refused() {
    let mut a = fresh(100, CAP);
    a.fee_recipient.bytes[31] = 3;
    assert_eq!(buy(&mut a, SOL, 0), Err(CurveError::InvalidFeeRecipient));
}

#[test]
fn refused_trades_change_nothing() {
    let mut a = fresh(100, CAP);
    assert_eq!(
        buy(&mut a, SOL, 34_277_831_558_568),
        Err(CurveError::SlippageExceeded)
    );
    assert_eq!(a, fresh(100, CAP));
    assert_eq!(sell(&mut a, SOL, 0), Err(CurveError::InsufficientSol));
    assert_eq!(a, fresh(100, CAP));
}

#[test]
fn buy_beyond_the_token_reserve_is_refused() {
    let mut a = fresh(0, 1_000 * SOL);
    assert_eq!(
        buy(&mut a, 500 * SOL, 0),
        Err(CurveError::InsufficientTokens)
    );
}

#[test]
fn buy_overflows_are_refused() {
    let mut a = fresh(100, CAP);
    a.bonding_curve.virtual_sol_reserves = u64::MAX;
    assert_eq!(buy(&mut a, SOL, 0), Err(CurveError::MathOverflow));

    let mut b = fresh(20_000, CAP);
    assert_eq!(buy(&mut b, SOL, 0), Err(CurveError::MathOverflow));

    // Nothing but the fee is paid, so the token reserve would have to grow.
    let mut c = fresh(10_000, CAP);
    assert_eq!(buy(&mut c, SOL, 0), Err(CurveError::MathOverflow));
}

#[test]
fn greatest_token_reserve_wraps_when_no_sol_comes_in() {
    let mut a = fresh(10_000, CAP);
    a.bonding_curve.virtual_token_reserves = u64::MAX;
    assert_eq!(buy(&mut a, 1, 0), Err(CurveError::InsufficientTokens));
    a.bonding_curve.real_token_reserves = u64::MAX;
    let fill = buy(&mut a, 1, 0).unwrap();
    assert_eq!(fill.sol, 0);
    assert_eq!(fill.tokens, u64::MAX);
    assert_eq!(a.bonding_curve.virtual_token_reserves, 0);
}

#[test]
fn undefined_arithmetic_is_told_apart() {
    let mut a = fresh(500, u64::MAX);
    assert!(!a.buy_is_defined(u64::MAX));
    assert!(a.buy_is_defined(u64::MAX / 500));
    a.global_config.paused = true;
    assert!(a.buy_is_defined(u64::MAX));

    let mut b = fresh(10_000, CAP);
    b.bonding_curve.virtual_sol_reserves = 0;
    assert!(!b.buy_is_defined(SOL));
    b.global_config.fee_bps = 20_000;
    assert!(b.buy_is_defined(SOL));

    let mut c = fresh(500, CAP);
    c.bonding_curve.virtual_sol_reserves = u64::MAX;
    c.bonding_curve.virtual_token_reserves = 1;
    assert!(!c.sell_is_defined(1_000_000));
    assert!(c.sell_is_defined(u64::MAX));
    assert!(c.sell_is_defined(0));
    assert!(fresh(500, CAP).sell_is_defined(1_000_000));
}

#[test]
fn fees_add_up_to_the_greatest_amount() {
    let mut a = fresh(100, CAP);
    a.bonding_curve.total_fees_collected = u64::MAX - 5;
    buy(&mut a, SOL, 0).unwrap();
    assert_eq!(a.bonding_curve.total_fees_collected, u64::MAX);
}

#[test]
fn sell_prices_along_the_curve() {
    let mut a = fresh(100, CAP);
    buy(&mut a, SOL, 0).unwrap();
    assert!(a.sell_is_defined(10_000_000_000_000));
    let fill = sell(&mut a, 10_000_000_000_000, 292_547_455).unwrap();
    assert_eq!(fill.sol, 292_547_455);
    assert_eq!(fill.fee, 2_955_024);
    assert_eq!(fill.tokens, 10_000_000_000_000);
    let mut want = fresh(100, CAP);
    want.bonding_curve.virtual_sol_reserves = 30_694_497_521;
    want.bonding_curve.virtual_token_reserves = 1_048_722_168_441_433;
    want.bonding_curve.real_sol_reserves = 694_497_521;
    want.bonding_curve.real_token_reserves = 975_722_168_441_433;
    want.bonding_curve.total_fees_collected = 12_955_024;
    assert_eq!(a, want);
    assert_eq!(
        fill.actions,
        vec![
            Action::TransferTokens {
                from: key(10),
                to: key(9),
                authority: key(11),
                amount: 10_000_000_000_000,
                signing: Signing::Wallets,
            },
            Action::TransferSol {
                from: key(8),
                to: key(11),
                lamports: 292_547_455,
                signing: Signing::Vault { mint: key(5), bump: 253 },
            },
            Action::TransferSol {
                from: key(8),
                to: key(2),
                lamports: 2_955_024,
                signing: Signing::Vault { mint: key(5), bump: 253 },
            },
        ]
    );
}

#[test]
fn sell_limits_and_overflows_are_refused() {
    let mut a = fresh(100, CAP);
    buy(&mut a, SOL, 0).unwrap();
    assert_eq!(
        sell(&mut a, 10_000_000_000_000, 292_547_456),
        Err(CurveError::SlippageExceeded)
    );
    assert_eq!(sell(&mut a, u64::MAX, 0), Err(CurveError::MathOverflow));

    let mut b = fresh(20_000, CAP);
    b.bonding_curve.real_sol_reserves = SOL;
    assert_eq!(sell(&mut b, 1_000_000_000_000, 0), Err(CurveError::MathOverflow));

    let mut c = fresh(100, CAP);
    c.bonding_curve.real_sol_reserves = SOL;
    c.bonding_curve.real_token_reserves = u64::MAX;
    assert_eq!(sell(&mut c, 1, 0), Err(CurveError::MathOverflow));
}

#[test]
fn selling_back_at_once_returns_no_more_than_was_paid_in() {
    let mut a = fresh(100, CAP);
    let bought = buy(&mut a, SOL, 0).unwrap();
    let sold = sell(&mut a, bought.tokens, 0).unwrap();
    assert_eq!(sold.sol + sold.fee, 990_000_000);
    assert_eq!(sold.sol, 980_100_000);
    assert_eq!(a.bonding_curve.real_sol_reserves, 0);
    assert_eq!(a.bonding_curve.real_token_reserves, 1_000_000_000_000_000);
}

#[test]
fn splitting_a_purchase_gives_no_more_tokens() {
    let mut whole = fresh(0, 1_000 * SOL);
    let once = buy(&mut whole, SOL, 0).unwrap();
    let mut parts = fresh(0, 1_000 * SOL);
    let first = buy(&mut parts, SOL / 2, 0).unwrap();
    let second = buy(&mut parts, SOL / 2, 0).unwrap();
    assert_eq!(once.tokens, 34_612_903_225_806);
    assert_eq!(first.tokens, 17_590_163_934_426);
    assert_eq!(second.tokens, 17_022_739_291_380);
    assert!(first.tokens + second.tokens <= once.tokens);
}

#[test]
fn more_sol_buys_more_and_raises_the_price() {
    let mut a = fresh(100, CAP);
    let mut b = fresh(100, CAP);
    let small = buy(&mut a, SOL, 0).unwrap();
    let large = buy(&mut b, 2 * SOL, 0).unwrap();
    assert_eq!(large.tokens, 66_433_395_872_420);
    assert!(small.tokens < large.tokens);
    let before = fresh(100, CAP).bonding_curve;
    let after = a.bonding_curve;
    assert!(
        (after.virtual_sol_reserves as u128) * (before.virtual_token_reserves as u128)
            > (before.virtual_sol_reserves as u128) * (after.virtual_token_reserves as u128)
    );
    let product =
        (after.virtual_sol_reserves as u128) * (after.virtual_token_reserves as u128);
    assert_eq!(product, 32_190_000_000_000_008_670_000_000);
}

#[test]
fn more_tokens_fetch_more_and_lower_the_price() {
    let mut a = fresh(100, CAP);
    buy(&mut a, SOL, 0).unwrap();
    let before = a.bonding_curve.clone();
    let fill = sell(&mut a, 20_000_000_000_000, 0).unwrap();
    assert_eq!(fill.sol, 579_568_483);
    assert_eq!(fill.fee, 5_854_227);
    let after = a.bonding_curve;
    assert!(
        (after.virtual_sol_reserves as u128) * (before.virtual_token_reserves as u128)
            < (before.virtual_sol_reserves as u128) * (after.virtual_token_reserves as u128)
    );
}

#[test]
fn reserves_move_in_step() {
    let mut a = fresh(250, CAP);
    for i in 1..20u64 {
        buy(&mut a, i * 100_000_007, 0).unwrap();
        sell(&mut a, i * 1_000_000_000_003, 0).unwrap();
        let c = &a.bonding_curve;
        assert_eq!(c.virtual_sol_reserves - c.real_sol_reserves, 30_000_000_000);
        assert_eq!(c.virtual_token_reserves - c.real_token_reserves, 73_000_000_000_000);
    }
}

fn apply(actions: &[Action], account: Pubkey) -> (i128, i128) {
    let mut lamports: i128 = 0;
    let mut tokens: i128 = 0;
    for action in actions {
        match action {
            Action::TransferSol { from, to, lamports: n, .. } => {
                if *to == account {
                    lamports += *n as i128;
                }
                if *from == account {
                    lamports -= *n as i128;
                }
            }
            Action::TransferTokens { from, to, amount, .. } => {
                if *to == account {
                    tokens += *amount as i128;
                }
                if *from == account {
                    tokens -= *amount as i128;
                }
            }
            _ => panic!("not part of a trade"),
        }
    }
    (lamports, tokens)
}

#[test]
fn vaults_follow_the_record_along_a_run() {
    let mut a = fresh(137, CAP);
    let mut vault: i128 = 890_880;
    let mut held: i128 = 1_000_000_000_000_000;
    for i in 1..25u64 {
        let fill = if i % 3 == 0 {
            sell(&mut a, i * 777_777_777_777, 0).unwrap()
        } else {
            buy(&mut a, i * 123_456_789, 0).unwrap()
        };
        vault += apply(&fill.actions, key(8)).0;
        held += apply(&fill.actions, key(9)).1;
        assert_eq!(vault, 890_880 + a.bonding_curve.real_sol_reserves as i128);
        assert_eq!(held, a.bonding_curve.real_token_reserves as i128);
        assert_eq!(a.bonding_curve.mint, key(5));
        assert_eq!(a.bonding_curve.metadata_uri, "ipfs://x");
    }
}

#[test]
fn traders_pay_and_receive_what_was_priced() {
    let mut a = fresh(100, CAP);
    let bought = buy(&mut a, SOL, 0).unwrap();
    assert_eq!(apply(&bought.actions, key(11)).0, -1_000_000_000);
    assert_eq!(apply(&bought.actions, key(2)).0, 10_000_000);
    assert_eq!(apply(&bought.actions, key(10)).1, 34_277_831_558_567);
    let sold = sell(&mut a, 10_000_000_000_000, 0).unwrap();
    assert_eq!(apply(&sold.actions, key(11)).0, 292_547_455);
    assert_eq!(apply(&sold.actions, key(2)).0, 2_955_024);
    assert_eq!(apply(&sold.actions, key(10)).1, -10_000_000_000_000);
}

#[test]
fn selling_and_buying_back_can_gain_rounding_only() {
    let mut a = fresh(0, CAP);
    a.bonding_curve.virtual_sol_reserves = 30_927_177_046;
    a.bonding_curve.real_sol_reserves = 927_177_046;
    a.bonding_curve.virtual_token_reserves = 1_072_853_325_739_040;
    a.bonding_curve.real_token_reserves = 999_853_325_739_040;
    let sold = sell(&mut a, 630_713, 0).unwrap();
    assert_eq!(sold.sol, 19);
    let back = buy(&mut a, 19, 0).unwrap();
    assert_eq!(back.tokens, 659_103);
    let gain = (back.tokens - 630_713) as u128;
    assert!(gain * 30_927_177_046 < 1_072_853_325_739_040 + 630_713);
}

#[test]
fn tokens_in_circulation_can_be_sold_back() {
    let mut a = fresh(500, CAP);
    for i in 1..10u64 {
        buy(&mut a, i * SOL, 0).unwrap();
    }
    let circulating = 1_000_000_000_000_000 - a.bonding_curve.real_token_reserves;
    let raised = a.bonding_curve.real_sol_reserves;
    let fill = sell(&mut a, circulating, 0).unwrap();
    assert!(fill.sol + fill.fee <= raised);
    assert_eq!(a.bonding_curve.real_token_reserves, 1_000_000_000_000_000);
}

#[test]
fn looser_limit_gives_the_same_trade() {
    let mut a = fresh(100, CAP);
    let mut b = fresh(100, CAP);
    assert_eq!(
        buy(&mut a, SOL, 34_277_831_558_567).unwrap(),
        buy(&mut b, SOL, 1).unwrap()
    );
}

#[test]
fn fees_stay_within_five_percent() {
    let mut a = fresh(500, CAP);
    let fill = buy(&mut a, 19, 0).unwrap();
    assert_eq!((fill.fee, fill.sol), (0, 19));
    let fill = buy(&mut a, 20, 0).unwrap();
    assert_eq!((fill.fee, fill.sol), (1, 19));
    let fill = buy(&mut a, 10 * SOL + 39, 0).unwrap();
    assert_eq!((fill.fee, fill.sol), (500_000_001, 9_500_000_038));
}
