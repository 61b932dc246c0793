//! The record of a pool and the instruction that creates one.

use vstd::prelude::*;

use crate::actions::{Action, Signing};
use crate::config::GlobalConfig;
use crate::constants::{
    METADATA_URI_MAX_LEN, TOTAL_TOKEN_SUPPLY, VIRTUAL_SOL_RESERVE, VIRTUAL_TOKEN_RESERVE,
};
use crate::errors::CurveError;
use crate::pubkey::Pubkey;

verus! {

/// The currency that buyers pay with and sellers receive.
#[derive(Clone, Copy, Debug, PartialEq, Eq, Structural)]
pub enum QuoteType {
    /// Native SOL, in lamports.
    Sol,
    /// The USDC token, 6 decimals.
    Usdc,
    /// The USDT token, 6 decimals.
    Usdt,
}

impl Default for QuoteType {
    /// SOL.
    fn default() -> (r: QuoteType)
        ensures
            r == QuoteType::Sol,
    {
        QuoteType::Sol
    }
}

/// The state of one pool.
#[derive(Clone, Debug, PartialEq, Eq)]
pub struct BondingCurve {
    /// The token being sold.
    pub mint: Pubkey,
    /// The wallet that launched the pool.
    pub creator: Pubkey,
    /// The SOL side of the price curve.
    pub virtual_sol_reserves: u64,
    /// The token side of the price curve.
    pub virtual_token_reserves: u64,
    /// The quote currency raised.
    pub real_sol_reserves: u64,
    /// The tokens left in the vault.
    pub real_token_reserves: u64,
    /// Whether the pool has graduated.
    pub complete: bool,
    /// The fees of all trades so far.
    pub total_fees_collected: u64,
    /// When the pool was created, as a unix timestamp.
    pub created_at: i64,
    /// The quote currency.
    pub quote_type: QuoteType,
    /// The mint of the quote currency; the null address for SOL.
    pub quote_mint: Pubkey,
    /// Where the metadata of the token is found.
    pub metadata_uri: String,
}

impl BondingCurve {
    /// Holds of every curve that the instructions write. The virtual reserves
    /// stay a fixed distance above the real ones, a SOL curve has the null address
    /// for its quote mint, and the URI fits its space.
    pub open spec fn wf(self) -> bool {
        &&& self.virtual_sol_reserves == self.real_sol_reserves + VIRTUAL_SOL_RESERVE
        &&& self.virtual_token_reserves == self.real_token_reserves + (VIRTUAL_TOKEN_RESERVE
            - TOTAL_TOKEN_SUPPLY)
        &&& self.quote_type == QuoteType::Sol ==> self.quote_mint@ == crate::pubkey::null_key()
        &&& uri_len(self.metadata_uri) <= METADATA_URI_MAX_LEN
    }

    /// The product of the virtual reserves, which trades keep up to rounding.
    pub open spec fn product(self) -> int {
        self.virtual_sol_reserves * self.virtual_token_reserves
    }
}

/// The length of a URI in bytes.
pub open spec fn uri_len(uri: String) -> nat {
    vstd::utf8::encode_utf8(uri@).len()
}

/// The bumps of the two addresses that the program derives for a mint.
#[derive(Clone, Copy, Debug, PartialEq, Eq)]
pub struct PoolBumps {
    pub bonding_curve: u8,
    pub sol_vault: u8,
}

/// The accounts of [`create_pool`].
#[derive(Clone, Debug, PartialEq, Eq)]
pub struct CreatePool {
    /// The new curve account.
    pub bonding_curve: BondingCurve,
    /// The address of the curve account.
    pub bonding_curve_key: Pubkey,
    /// The address of the SOL vault, which does not exist yet.
    pub sol_vault: Pubkey,
    /// The token account that will hold the tokens of the pool.
    pub curve_token_account: Pubkey,
    /// The token being sold. The curve account may mint it.
    pub mint: Pubkey,
    /// The signer.
    pub creator: Pubkey,
    /// The mint of the quote currency; any address for SOL.
    pub quote_mint: Pubkey,
    pub global_config: GlobalConfig,
    pub bumps: PoolBumps,
}

impl CreatePool {
    /// Why [`create_pool`] refuses, if it does.
    pub open spec fn create_error(self, metadata_uri: String, quote_type: u8) -> Option<
        CurveError,
    > {
        if self.global_config.paused {
            Some(CurveError::ProgramPaused)
        } else if uri_len(metadata_uri) > METADATA_URI_MAX_LEN {
            Some(CurveError::MetadataUriTooLong)
        } else if quote_type > 2 {
            Some(CurveError::InvalidQuoteType)
        } else if quote_type == 1 && self.quote_mint@ != self.global_config.usdc_mint@ {
            Some(CurveError::InvalidQuoteMint)
        } else if quote_type == 2 && self.quote_mint@ != self.global_config.usdt_mint@ {
            Some(CurveError::InvalidQuoteMint)
        } else {
            None
        }
    }

    /// The quote currency that a number stands for.
    pub open spec fn quote_of(quote_type: u8) -> QuoteType {
        if quote_type == 1 {
            QuoteType::Usdc
        } else if quote_type == 2 {
            QuoteType::Usdt
        } else {
            QuoteType::Sol
        }
    }

    /// Whether `curve` is the curve that [`create_pool`] writes.
    pub open spec fn is_created(
        self,
        curve: BondingCurve,
        metadata_uri: String,
        quote_type: u8,
        now: i64,
    ) -> bool {
        &&& curve.mint == self.mint
        &&& curve.creator == self.creator
        &&& curve.virtual_sol_reserves == VIRTUAL_SOL_RESERVE
        &&& curve.virtual_token_reserves == VIRTUAL_TOKEN_RESERVE
        &&& curve.real_sol_reserves == 0
        &&& curve.real_token_reserves == TOTAL_TOKEN_SUPPLY
        &&& !curve.complete
        &&& curve.total_fees_collected == 0
        &&& curve.created_at == now
        &&& curve.quote_type == Self::quote_of(quote_type)
        &&& curve.quote_mint@ == (if quote_type == 0 {
            crate::pubkey::null_key()
        } else {
            self.quote_mint@
        })
        &&& curve.metadata_uri == metadata_uri
    }

    /// Whether `actions` are what [`create_pool`] asks for: the SOL vault is
    /// created, the whole supply is minted into the vault of the curve, and the
    /// right to mint is given up, in this order.
    pub open spec fn is_funding(self, actions: Seq<Action>, vault_rent: u64) -> bool {
        let curve_signs = Signing::Curve { mint: self.mint, bump: self.bumps.bonding_curve };
        &&& actions.len() == 3
        &&& actions[0] matches Action::CreateAccount { from, to, lamports, space, owner, signing }
            && from == self.creator && to == self.sol_vault && lamports == vault_rent && space
            == 0 && owner@ == crate::pubkey::null_key() && signing == (Signing::Vault {
            mint: self.mint,
            bump: self.bumps.sol_vault,
        })
        &&& actions[1] == Action::MintTokens {
            mint: self.mint,
            to: self.curve_token_account,
            authority: self.bonding_curve_key,
            amount: TOTAL_TOKEN_SUPPLY,
            signing: curve_signs,
        }
        &&& actions[2] == Action::RevokeMintAuthority {
            mint: self.mint,
            authority: self.bonding_curve_key,
            signing: curve_signs,
        }
    }
}

/// Creates the pool of a mint. `quote_type` is 0 for SOL, 1 for USDC and 2 for
/// USDT; `now` is the current unix timestamp, and `vault_rent` is what an empty
/// account has to hold to stay alive.
pub fn create_pool(
    accounts: &mut CreatePool,
    metadata_uri: String,
    quote_type: u8,
    now: i64,
    vault_rent: u64,
) -> (r: Result<Vec<Action>, CurveError>)
    ensures
        r is Ok <==> old(accounts).create_error(metadata_uri, quote_type) is None,
        r matches Err(e) ==> old(accounts).create_error(metadata_uri, quote_type) == Some(e)
            && *final(accounts) == *old(accounts),
        r matches Ok(actions) ==> {
            &&& old(accounts).is_created(
                final(accounts).bonding_curve,
                metadata_uri,
                quote_type,
                now,
            )
            &&& final(accounts).bonding_curve.wf()
            &&& *final(accounts) == (CreatePool {
                bonding_curve: final(accounts).bonding_curve,
                ..*old(accounts)
            })
            &&& old(accounts).is_funding(actions@, vault_rent)
        },
        r is Ok <==> {
            &&& !old(accounts).global_config.paused
            &&& vstd::utf8::encode_utf8(metadata_uri@).len() <= 200
            &&& {
                ||| quote_type == 0
                ||| quote_type == 1 && old(accounts).quote_mint@
                    == old(accounts).global_config.usdc_mint@
                ||| quote_type == 2 && old(accounts).quote_mint@
                    == old(accounts).global_config.usdt_mint@
            }
        },
{
    if accounts.global_config.paused {
        return Err(CurveError::ProgramPaused);
    }
    if metadata_uri.as_str().as_bytes().len() > METADATA_URI_MAX_LEN {
        return Err(CurveError::MetadataUriTooLong);
    }
    let (resolved_quote_type, quote_mint_key) = match quote_type {
        0 => (QuoteType::Sol, Pubkey::default()),
        1 => {
            if !accounts.quote_mint.same(&accounts.global_config.usdc_mint) {
                return Err(CurveError::InvalidQuoteMint);
            }
            (QuoteType::Usdc, accounts.quote_mint)
        },
        2 => {
            if !accounts.quote_mint.same(&accounts.global_config.usdt_mint) {
                return Err(CurveError::InvalidQuoteMint);
            }
            (QuoteType::Usdt, accounts.quote_mint)
        },
        _ => return Err(CurveError::InvalidQuoteType),
    };

    accounts.bonding_curve = BondingCurve {
        mint: accounts.mint,
        creator: accounts.creator,
        virtual_sol_reserves: VIRTUAL_SOL_RESERVE,
        virtual_token_reserves: VIRTUAL_TOKEN_RESERVE,
        real_sol_reserves: 0,
        real_token_reserves: TOTAL_TOKEN_SUPPLY,
        complete: false,
        total_fees_collected: 0,
        created_at: now,
        quote_type: resolved_quote_type,
        quote_mint: quote_mint_key,
        metadata_uri,
    };

    let curve_signs = Signing::Curve { mint: accounts.mint, bump: accounts.bumps.bonding_curve };
    let vault_signs = Signing::Vault { mint: accounts.mint, bump: accounts.bumps.sol_vault };
    let mut actions: Vec<Action> = Vec::new();
    actions.push(
        Action::CreateAccount {
            from: accounts.creator,
            to: accounts.sol_vault,
            lamports: vault_rent,
            space: 0,
            owner: Pubkey::system_program(),
            signing: vault_signs,
        },
    );
    actions.push(
        Action::MintTokens {
            mint: accounts.mint,
            to: accounts.curve_token_account,
            authority: accounts.bonding_curve_key,
            amount: TOTAL_TOKEN_SUPPLY,
            signing: curve_signs,
        },
    );
    actions.push(
        Action::RevokeMintAuthority {
            mint: accounts.mint,
            authority: accounts.bonding_curve_key,
            signing: curve_signs,
        },
    );
    Ok(actions)
}

} // verus!
