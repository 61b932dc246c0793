//! What addresses, signatures and refusals are told apart by.

use vstd::prelude::*;

use crate::actions::Signing;
use crate::errors::CurveError;
use crate::pubkey::Pubkey;

verus! {

/// The address that stands for "no account" is 32 zero bytes.
pub proof fn null_key_is_zero()
    ensures
        crate::pubkey::null_key().len() == 32,
        forall|i: int| 0 <= i < 32 ==> crate::pubkey::null_key()[i] == 0,
{
}

/// The program signs for a curve with the bytes of the word `curve`, and for a SOL
/// vault with those of `sol_vault`, each followed by the mint and the bump. Wallets
/// sign for themselves.
pub proof fn seeds_are_tag_mint_and_bump(mint: Pubkey, bump: u8)
    ensures
        (Signing::Wallets).seed_bytes().len() == 0,
        ({
            let s = (Signing::Curve { mint, bump }).seed_bytes();
            &&& s.len() == 3
            &&& s[0] == seq![0x63u8, 0x75, 0x72, 0x76, 0x65]
            &&& s[1] == mint@
            &&& s[2] == seq![bump]
        }),
        ({
            let s = (Signing::Vault { mint, bump }).seed_bytes();
            &&& s.len() == 3
            &&& s[0] == seq![0x73u8, 0x6f, 0x6c, 0x5f, 0x76, 0x61, 0x75, 0x6c, 0x74]
            &&& s[1] == mint@
            &&& s[2] == seq![bump]
        }),
{
    reveal_strlit("curve");
    reveal_strlit("sol_vault");
    vstd::utf8::is_ascii_chars_encode_utf8("curve"@);
    vstd::utf8::is_ascii_chars_encode_utf8("sol_vault"@);
    assert((Signing::Curve { mint, bump }).seed_bytes()[0] =~= seq![
        0x63u8,
        0x75,
        0x72,
        0x76,
        0x65,
    ]);
    assert((Signing::Vault { mint, bump }).seed_bytes()[0] =~= seq![
        0x73u8,
        0x6f,
        0x6c,
        0x5f,
        0x76,
        0x61,
        0x75,
        0x6c,
        0x74,
    ]);
}

/// The seeds tell apart for whom the program signs: the curve or the vault, the mint
/// and the bump.
pub proof fn seeds_tell_signers_apart(mint: Pubkey, bump: u8, other: Pubkey, other_bump: u8)
    ensures
        (Signing::Curve { mint, bump }).seed_bytes() != (Signing::Vault {
            mint: other,
            bump: other_bump,
        }).seed_bytes(),
        (Signing::Curve { mint, bump }).seed_bytes() == (Signing::Curve {
            mint: other,
            bump: other_bump,
        }).seed_bytes() ==> mint@ == other@ && bump == other_bump,
        (Signing::Vault { mint, bump }).seed_bytes() == (Signing::Vault {
            mint: other,
            bump: other_bump,
        }).seed_bytes() ==> mint@ == other@ && bump == other_bump,
{
    seeds_are_tag_mint_and_bump(mint, bump);
    seeds_are_tag_mint_and_bump(other, other_bump);
    assert(seq![bump][0] == bump);
    assert(seq![other_bump][0] == other_bump);
    assert(seq![0x63u8, 0x75, 0x72, 0x76, 0x65].len() == 5);
    assert(seq![0x73u8, 0x6f, 0x6c, 0x5f, 0x76, 0x61, 0x75, 0x6c, 0x74].len() == 9);
}

/// The length of the text of an error.
proof fn lemma_text_len(e: CurveError)
    ensures
        e.text().len() == (match e {
            CurveError::CurveComplete => 63int,
            CurveError::CurveNotComplete => 66int,
            CurveError::InvalidAmount => 42int,
            CurveError::SlippageExceeded => 76int,
            CurveError::InsufficientTokens => 51int,
            CurveError::InsufficientSol => 47int,
            CurveError::MathOverflow => 39int,
            CurveError::Unauthorized => 55int,
            CurveError::InvalidFeeRecipient => 68int,
            CurveError::ProgramPaused => 45int,
            CurveError::FeeTooHigh => 46int,
            CurveError::InvalidQuoteType => 59int,
            CurveError::InvalidQuoteMint => 85int,
            CurveError::UnsupportedQuoteType => 72int,
            CurveError::MetadataUriTooLong => 54int,
        }),
{
    reveal_strlit("The bonding curve has reached its target and trading is locked.");
    reveal_strlit("The bonding curve has not graduated yet. Migration is not allowed.");
    reveal_strlit("Invalid amount: must be greater than zero.");
    reveal_strlit("Slippage tolerance exceeded. Try increasing slippage or reducing trade size.");
    reveal_strlit("Insufficient tokens remaining in the bonding curve.");
    reveal_strlit("Insufficient SOL reserves in the bonding curve.");
    reveal_strlit("Integer overflow in bonding curve math.");
    reveal_strlit("Unauthorized: only the admin can call this instruction.");
    reveal_strlit("The fee_recipient provided does not match the on-chain GlobalConfig.");
    reveal_strlit("The program is currently paused by the admin.");
    reveal_strlit("Fee too high: maximum allowed is 500 bps (5%).");
    reveal_strlit("Invalid quote_type: must be 0 (SOL), 1 (USDC), or 2 (USDT).");
    reveal_strlit(
        "The quote_mint provided does not match the on-chain GlobalConfig for this quote type.",
    );
    reveal_strlit("USDC/USDT quote curves are not yet live. Use SOL (quote_type=0) for now.");
    reveal_strlit("Metadata URI exceeds maximum length of 200 characters.");
}

/// No two errors show the same text.
pub proof fn texts_tell_errors_apart(e: CurveError, f: CurveError)
    requires
        e.text() == f.text(),
    ensures
        e == f,
{
    lemma_text_len(e);
    lemma_text_len(f);
}

} // verus!
