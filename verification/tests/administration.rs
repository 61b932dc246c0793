use moonflux_curve::{
    initialize_global, migrate, toggle_pause, update_global, Action, AdminOnly, BondingCurve,
    CurveError, GlobalConfig, InitializeGlobal, Migrate, PoolBumps, Pubkey, QuoteType, Signing,
    UpdateGlobal, FEE_BPS_DEFAULT, TARGET_SOL_DEFAULT, TARGET_USDC_DEFAULT,
};

fn key(b: u8) -> Pubkey {
    Pubkey { bytes: [b; 32] }
}

fn config() -> GlobalConfig {
    GlobalConfig {
        admin: key(1),
        fee_recipient: key(2),
        fee_bps: 100,
        target_cap: 85_000_000_000,
        target_cap_usdc: 69_000_000_000,
        paused: false,
        usdc_mint: key(3),
        usdt_mint: key(4),
    }
}

fn blank() -> InitializeGlobal {
    InitializeGlobal {
        global_config: GlobalConfig {
            admin: key(0),
            fee_recipient: key(0),
            fee_bps: 0,
            target_cap: 0,
            target_cap_usdc: 0,
            paused: true,
            usdc_mint: key(0),
            usdt_mint: key(0),
        },
        admin: key(1),
        fee_recipient: key(2),
    }
}

fn graduated(sol_balance: u64, token_balance: u64) -> Migrate {
    Migrate {
        bonding_curve: BondingCurve {
            mint: key(5),
            creator: key(6),
            virtual_sol_reserves: 115_000_000_000,
            virtual_token_reserves: 279_913_043_478_261,
            real_sol_reserves: 85_000_000_000,
            real_token_reserves: 206_913_043_478_261,
            complete: true,
            total_fees_collected: 0,
            created_at: 0,
            quote_type: QuoteType::Sol,
            quote_mint: key(0),
            metadata_uri: String::new(),
        },
        bonding_curve_key: key(7),
        sol_vault: key(8),
        sol_balance,
        curve_token_account: key(9),
        token_balance,
        mint: key(5),
        migration_wallet: key(13),
        migration_token_account: key(14),
        global_config: config(),
        admin: key(1),
        bumps: PoolBumps { bonding_curve: 254, sol_vault: 253 },
    }
}

#[test]
fn initialize_writes_the_configuration() {
    let mut a = blank();
    assert_eq!(
        initialize_global(&mut a, FEE_BPS_DEFAULT as u16, TARGET_SOL_DEFAULT, key(3), key(4)),
        Ok(())
    );
    assert_eq!(a.global_config, config());
    assert_eq!(TARGET_USDC_DEFAULT, 69_000_000_000);
}

#[test]
fn initialize_refuses_high_fees_and_zero_targets() {
    let mut a = blank();
    assert_eq!(
        initialize_global(&mut a, 501, 0, key(3), key(4)),
        Err(CurveError::FeeTooHigh)
    );
    assert_eq!(
        initialize_global(&mut a, 500, 0, key(3), key(4)),
        Err(CurveError::InvalidAmount)
    );
    assert_eq!(a, blank());
    assert_eq!(initialize_global(&mut a, 500, 1, key(3), key(4)), Ok(()));
}

#[test]
fn update_changes_five_settings() {
    let mut a = UpdateGlobal { global_config: config(), admin: key(1) };
    a.global_config.paused = true;
    a.global_config.target_cap_usdc = 7;
    assert_eq!(update_global(&mut a, 250, 9, key(21), key(22), key(23)), Ok(()));
    assert_eq!(
        a.global_config,
        GlobalConfig {
            admin: key(1),
            fee_recipient: key(21),
            fee_bps: 250,
            target_cap: 9,
            target_cap_usdc: 7,
            paused: true,
            usdc_mint: key(22),
            usdt_mint: key(23),
        }
    );
}

#[test]
fn update_refusals() {
    let mut a = UpdateGlobal { global_config: config(), admin: key(9) };
    assert_eq!(
        update_global(&mut a, 501, 0, key(21), key(22), key(23)),
        Err(CurveError::Unauthorized)
    );
    a.admin = key(1);
    assert_eq!(
        update_global(&mut a, 501, 0, key(21), key(22), key(23)),
        Err(CurveError::FeeTooHigh)
    );
    assert_eq!(
        update_global(&mut a, 0, 0, key(21), key(22), key(23)),
        Err(CurveError::InvalidAmount)
    );
    assert_eq!(a.global_config, config());
}

#[test]
fn toggling_twice_restores() {
    let mut a = AdminOnly { global_config: config(), admin: key(1) };
    assert_eq!(toggle_pause(&mut a), Ok(()));
    assert!(a.global_config.paused);
    assert_eq!(toggle_pause(&mut a), Ok(()));
    assert_eq!(a.global_config, config());
    a.admin.bytes[0] = 0;
    assert_eq!(toggle_pause(&mut a), Err(CurveError::Unauthorized));
    assert_eq!(a.global_config, config());
}

#[test]
fn migrate_moves_both_balances() {
    let m = graduated(85_000_890_880, 206_913_043_478_261);
    assert_eq!(
        migrate(&m),
        Ok(vec![
            Action::TransferSol {
                from: key(8),
                to: key(13),
                lamports: 85_000_890_880,
                signing: Signing::Vault { mint: key(5), bump: 253 },
            },
            Action::TransferTokens {
                from: key(9),
                to: key(14),
                authority: key(7),
                amount: 206_913_043_478_261,
                signing: Signing::Curve { mint: key(5), bump: 254 },
            },
        ])
    );
}

#[test]
fn migrate_skips_empty_vaults() {
    assert_eq!(migrate(&graduated(0, 0)), Ok(vec![]));
    assert_eq!(migrate(&graduated(1, 0)).unwrap().len(), 1);
    assert!(matches!(
        migrate(&graduated(0, 1)).unwrap()[0],
        Action::TransferTokens { amount: 1, .. }
    ));
}

#[test]
fn migrate_refusals() {
    let mut m = graduated(1, 1);
    m.bonding_curve.complete = false;
    assert_eq!(migrate(&m), Err(CurveError::CurveNotComplete));
    m.admin = key(99);
    assert_eq!(migrate(&m), Err(CurveError::Unauthorized));
}

#[test]
fn messages_name_the_reason() {
    assert_eq!(
        CurveError::CurveComplete.message(),
        "The bonding curve has reached its target and trading is locked."
    );
    assert_eq!(
        CurveError::UnsupportedQuoteType.message(),
        "USDC/USDT quote curves are not yet live. Use SOL (quote_type=0) for now."
    );
    assert_eq!(
        CurveError::FeeTooHigh.message(),
        "Fee too high: maximum allowed is 500 bps (5%)."
    );
}
