//! The reasons for which an instruction is refused.

use vstd::prelude::*;

verus! {

/// Why an instruction was refused. A refused instruction changes nothing.
#[derive(Clone, Copy, Debug, PartialEq, Eq, Structural)]
pub enum CurveError {
    CurveComplete,
    CurveNotComplete,
    InvalidAmount,
    SlippageExceeded,
    InsufficientTokens,
    InsufficientSol,
    MathOverflow,
    Unauthorized,
    InvalidFeeRecipient,
    ProgramPaused,
    FeeTooHigh,
    InvalidQuoteType,
    InvalidQuoteMint,
    UnsupportedQuoteType,
    MetadataUriTooLong,
}

impl CurveError {
    /// The text that is shown for this error.
    pub open spec fn text(self) -> Seq<char> {
        match self {
            CurveError::CurveComplete =>
                "The bonding curve has reached its target and trading is locked."@,
            CurveError::CurveNotComplete =>
                "The bonding curve has not graduated yet. Migration is not allowed."@,
            CurveError::InvalidAmount => "Invalid amount: must be greater than zero."@,
            CurveError::SlippageExceeded =>
                "Slippage tolerance exceeded. Try increasing slippage or reducing trade size."@,
            CurveError::InsufficientTokens =>
                "Insufficient tokens remaining in the bonding curve."@,
            CurveError::InsufficientSol => "Insufficient SOL reserves in the bonding curve."@,
            CurveError::MathOverflow => "Integer overflow in bonding curve math."@,
            CurveError::Unauthorized =>
                "Unauthorized: only the admin can call this instruction."@,
            CurveError::InvalidFeeRecipient =>
                "The fee_recipient provided does not match the on-chain GlobalConfig."@,
            CurveError::ProgramPaused => "The program is currently paused by the admin."@,
            CurveError::FeeTooHigh => "Fee too high: maximum allowed is 500 bps (5%)."@,
            CurveError::InvalidQuoteType =>
                "Invalid quote_type: must be 0 (SOL), 1 (USDC), or 2 (USDT)."@,
            CurveError::InvalidQuoteMint =>
                "The quote_mint provided does not match the on-chain GlobalConfig for this quote type."@,
            CurveError::UnsupportedQuoteType =>
                "USDC/USDT quote curves are not yet live. Use SOL (quote_type=0) for now."@,
            CurveError::MetadataUriTooLong =>
                "Metadata URI exceeds maximum length of 200 characters."@,
        }
    }

    /// Returns the text that is shown for this error.
    pub fn message(&self) -> (r: &'static str)
        ensures
            r@ == self.text(),
            self is CurveComplete ==> r@
                == "The bonding curve has reached its target and trading is locked."@,
            self is CurveNotComplete ==> r@
                == "The bonding curve has not graduated yet. Migration is not allowed."@,
            self is InvalidAmount ==> r@
                == "Invalid amount: must be greater than zero."@,
            self is SlippageExceeded ==> r@
                == "Slippage tolerance exceeded. Try increasing slippage or reducing trade size."@,
            self is InsufficientTokens ==> r@
                == "Insufficient tokens remaining in the bonding curve."@,
            self is InsufficientSol ==> r@
                == "Insufficient SOL reserves in the bonding curve."@,
            self is MathOverflow ==> r@
                == "Integer overflow in bonding curve math."@,
            self is Unauthorized ==> r@
                == "Unauthorized: only the admin can call this instruction."@,
            self is InvalidFeeRecipient ==> r@
                == "The fee_recipient provided does not match the on-chain GlobalConfig."@,
            self is ProgramPaused ==> r@
                == "The program is currently paused by the admin."@,
            self is FeeTooHigh ==> r@
                == "Fee too high: maximum allowed is 500 bps (5%)."@,
            self is InvalidQuoteType ==> r@
                == "Invalid quote_type: must be 0 (SOL), 1 (USDC), or 2 (USDT)."@,
            self is InvalidQuoteMint ==> r@
                == "The quote_mint provided does not match the on-chain GlobalConfig for this quote type."@,
            self is UnsupportedQuoteType ==> r@
                == "USDC/USDT quote curves are not yet live. Use SOL (quote_type=0) for now."@,
            self is MetadataUriTooLong ==> r@
                == "Metadata URI exceeds maximum length of 200 characters."@,
    {
        match self {
            CurveError::CurveComplete =>
                "The bonding curve has reached its target and trading is locked.",
            CurveError::CurveNotComplete =>
                "The bonding curve has not graduated yet. Migration is not allowed.",
            CurveError::InvalidAmount => "Invalid amount: must be greater than zero.",
            CurveError::SlippageExceeded =>
                "Slippage tolerance exceeded. Try increasing slippage or reducing trade size.",
            CurveError::InsufficientTokens =>
                "Insufficient tokens remaining in the bonding curve.",
            CurveError::InsufficientSol => "Insufficient SOL reserves in the bonding curve.",
            CurveError::MathOverflow => "Integer overflow in bonding curve math.",
            CurveError::Unauthorized =>
                "Unauthorized: only the admin can call this instruction.",
            CurveError::InvalidFeeRecipient =>
                "The fee_recipient provided does not match the on-chain GlobalConfig.",
            CurveError::ProgramPaused => "The program is currently paused by the admin.",
            CurveError::FeeTooHigh => "Fee too high: maximum allowed is 500 bps (5%).",
            CurveError::InvalidQuoteType =>
                "Invalid quote_type: must be 0 (SOL), 1 (USDC), or 2 (USDT).",
            CurveError::InvalidQuoteMint =>
                "The quote_mint provided does not match the on-chain GlobalConfig for this quote type.",
            CurveError::UnsupportedQuoteType =>
                "USDC/USDT quote curves are not yet live. Use SOL (quote_type=0) for now.",
            CurveError::MetadataUriTooLong =>
                "Metadata URI exceeds maximum length of 200 characters.",
        }
    }
}

} // verus!
