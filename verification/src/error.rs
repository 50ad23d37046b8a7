use vstd::prelude::*;

verus! {

/// The errors that the pool's instructions report.
#[derive(Clone, Copy, Debug, PartialEq, Eq, Structural)]
pub enum ErrorCode {
    InvalidArgument,
    InvalidInput,
    ExceededSlippage,
    ZeroTradingTokens,
    SolInsufficient,
    TokenAmountTooBig,
}

/// The human-readable message attached to each error.
pub open spec fn error_message(e: ErrorCode) -> Seq<char> {
    match e {
        ErrorCode::InvalidArgument => "Invalid arguments"@,
        ErrorCode::InvalidInput => "InvalidInput"@,
        ErrorCode::ExceededSlippage => "Swap instruction exceeds desired slippage limit"@,
        ErrorCode::ZeroTradingTokens => "Given pool token amount results in zero trading tokens"@,
        ErrorCode::SolInsufficient => "sol amount is small than require"@,
        ErrorCode::TokenAmountTooBig => "Given Token amount too big"@,
    }
}

impl ErrorCode {
    /// The message shown for this error.
    pub fn message(&self) -> (r: &'static str)
        ensures
            r@ == error_message(*self),
    {
        match self {
            ErrorCode::InvalidArgument => "Invalid arguments",
            ErrorCode::InvalidInput => "InvalidInput",
            ErrorCode::ExceededSlippage => "Swap instruction exceeds desired slippage limit",
            ErrorCode::ZeroTradingTokens => "Given pool token amount results in zero trading tokens",
            ErrorCode::SolInsufficient => "sol amount is small than require",
            ErrorCode::TokenAmountTooBig => "Given Token amount too big",
        }
    }
}

} // verus!
