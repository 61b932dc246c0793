use moonflux_curve::{
    create_pool, Action, BondingCurve, CreatePool, CurveError, GlobalConfig, PoolBumps, Pubkey,
    QuoteType, Signing, CURVE_ACCOUNT_SIZE, GLOBAL_CONFIG_SIZE, METADATA_URI_MAX_LEN,
    TOTAL_TOKEN_SUPPLY, VIRTUAL_SOL_RESERVE, VIRTUAL_TOKEN_RESERVE,
};

fn key(b: u8) -> Pubkey {
    Pubkey { bytes: [b; 32] }
}

fn request(quote_mint: Pubkey) -> CreatePool {
    CreatePool {
        bonding_curve: BondingCurve {
            mint: key(0),
            creator: key(0),
            virtual_sol_reserves: 0,
            virtual_token_reserves: 0,
            real_sol_reserves: 0,
            real_token_reserves: 0,
            complete: false,
            total_fees_collected: 0,
            created_at: 0,
            quote_type: QuoteType::default(),
            quote_mint: key(0),
            metadata_uri: String::new(),
        },
        bonding_curve_key: key(7),
        sol_vault: key(8),
        curve_token_account: key(9),
        mint: key(5),
        creator: key(6),
        quote_mint,
        global_config: GlobalConfig {
            admin: key(1),
            fee_recipient: key(2),
            fee_bps: 100,
            target_cap: 85_000_000_000,
            target_cap_usdc: 69_000_000_000,
            paused: false,
            usdc_mint: key(3),
            usdt_mint: key(4),
        },
        bumps: PoolBumps { bonding_curve: 254, sol_vault: 253 },
    }
}

#[test]
fn sol_pool_starts_with_the_fixed_reserves() {
    let mut p = request(key(77));
    let actions =
        create_pool(&mut p, String::from("ipfs://token"), 0, 1_700_000_000, 890_880).unwrap();
    assert_eq!(
        p.bonding_curve,
        BondingCurve {
            mint: key(5),
            creator: key(6),
            virtual_sol_reserves: 30_000_000_000,
            virtual_token_reserves: 1_073_000_000_000_000,
            real_sol_reserves: 0,
            real_token_reserves: 1_000_000_000_000_000,
            complete: false,
            total_fees_collected: 0,
            created_at: 1_700_000_000,
            quote_type: QuoteType::Sol,
            quote_mint: key(0),
            metadata_uri: String::from("ipfs://token"),
        }
    );
    assert_eq!(
        actions,
        vec![
            Action::CreateAccount {
                from: key(6),
                to: key(8),
                lamports: 890_880,
                space: 0,
                owner: key(0),
                signing: Signing::Vault { mint: key(5), bump: 253 },
            },
            Action::MintTokens {
                mint: key(5),
                to: key(9),
                authority: key(7),
                amount: 1_000_000_000_000_000,
                signing: Signing::Curve { mint: key(5), bump: 254 },
            },
            Action::RevokeMintAuthority {
                mint: key(5),
                authority: key(7),
                signing: Signing::Curve { mint: key(5), bump: 254 },
            },
        ]
    );
}

#[test]
fn stablecoin_pools_take_the_configured_mint() {
    let mut p = request(key(3));
    create_pool(&mut p, String::new(), 1, 0, 0).unwrap();
    assert_eq!(p.bonding_curve.quote_type, QuoteType::Usdc);
    assert_eq!(p.bonding_curve.quote_mint, key(3));
    let mut p = request(key(4));
    create_pool(&mut p, String::new(), 2, 0, 0).unwrap();
    assert_eq!(p.bonding_curve.quote_type, QuoteType::Usdt);
    assert_eq!(p.bonding_curve.quote_mint, key(4));
}

#[test]
fn refusals_leave_the_accounts_alone() {
    let mut p = request(key(4));
    assert_eq!(
        create_pool(&mut p, String::new(), 1, 0, 0),
        Err(CurveError::InvalidQuoteMint)
    );
    assert_eq!(
        create_pool(&mut p, String::new(), 3, 0, 0),
        Err(CurveError::InvalidQuoteType)
    );
    let mut q = request(key(3));
    assert_eq!(
        create_pool(&mut q, String::new(), 2, 0, 0),
        Err(CurveError::InvalidQuoteMint)
    );
    assert_eq!(p, request(key(4)));
    p.global_config.paused = true;
    assert_eq!(
        create_pool(&mut p, "x".repeat(201), 3, 0, 0),
        Err(CurveError::ProgramPaused)
    );
}

#[test]
fn metadata_uri_is_measured_in_bytes() {
    let mut p = request(key(3));
    assert!(create_pool(&mut p, "x".repeat(METADATA_URI_MAX_LEN), 0, 0, 0).is_ok());
    assert_eq!(
        create_pool(&mut p, "x".repeat(METADATA_URI_MAX_LEN + 1), 9, 0, 0),
        Err(CurveError::MetadataUriTooLong)
    );
    assert!(create_pool(&mut p, "\u{e9}".repeat(100), 0, 0, 0).is_ok());
    assert_eq!(
        create_pool(&mut p, "\u{e9}".repeat(101), 0, 0, 0),
        Err(CurveError::MetadataUriTooLong)
    );
}

#[test]
fn signing_seeds_are_tag_mint_and_bump() {
    assert!(Signing::Wallets.seeds().is_empty());
    assert_eq!(
        Signing::Curve { mint: key(5), bump: 254 }.seeds(),
        vec![b"curve".to_vec(), vec![5u8; 32], vec![254u8]]
    );
    assert_eq!(
        Signing::Vault { mint: key(5), bump: 253 }.seeds(),
        vec![b"sol_vault".to_vec(), vec![5u8; 32], vec![253u8]]
    );
}

#[test]
fn well_known_addresses() {
    assert_eq!(Pubkey::default(), key(0));
    assert_eq!(Pubkey::system_program(), key(0));
    assert!(key(1).same(&key(1)));
    let mut other = key(1);
    other.bytes[17] = 0;
    assert!(!key(1).same(&other));
}

#[test]
fn sizes_and_reserves() {
    assert_eq!(GLOBAL_CONFIG_SIZE, 155);
    assert_eq!(CURVE_ACCOUNT_SIZE, 398);
    assert_eq!(VIRTUAL_SOL_RESERVE, 30_000_000_000);
    assert_eq!(VIRTUAL_TOKEN_RESERVE, 1_073_000_000_000_000);
    assert_eq!(TOTAL_TOKEN_SUPPLY, 1_000_000_000_000_000);
}
