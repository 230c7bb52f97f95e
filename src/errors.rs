use vstd::prelude::*;

verus! {

/// Every way an operation of the launch core can be rejected.
#[derive(Debug, Clone, Copy, PartialEq, Eq, Structural)]
pub enum LaunchError {
    NotInTradingWindow,
    ActionAlreadyPerformed,
    ExceedsSellLimit,
    ExceedsTransferLimit,
    InvalidDecimals,
    SlippageExceeded,
    PayoutTooLow,
    MathOverflow,
    InsufficientSupply,
    InsufficientFunds,
    InsufficientLiquidity,
    Unauthorized,
    InvalidWindowTimes,
    PrematureMigration,
    InvalidParams,
    InvalidFeeRecipient,
}

/// The message of each error.
pub open spec fn message_of(e: LaunchError) -> Seq<char> {
    match e {
        LaunchError::NotInTradingWindow => "Trading window closed"@,
        LaunchError::ActionAlreadyPerformed => "Daily action already performed"@,
        LaunchError::ExceedsSellLimit => "Sell exceeds 10 % limit"@,
        LaunchError::ExceedsTransferLimit => "Transfer exceeds 20 % limit"@,
        LaunchError::InvalidDecimals => "Decimals must be 18 or fewer"@,
        LaunchError::SlippageExceeded => "Slippage limit hit"@,
        LaunchError::PayoutTooLow => "Payout below min_payout"@,
        LaunchError::MathOverflow => "Math overflow"@,
        LaunchError::InsufficientSupply => "Insufficient supply"@,
        LaunchError::InsufficientFunds => "Insufficient funds"@,
        LaunchError::InsufficientLiquidity => "Insufficient liquidity"@,
        LaunchError::Unauthorized => "Unauthorized signer"@,
        LaunchError::InvalidWindowTimes => "Invalid window parameters"@,
        LaunchError::PrematureMigration => "Migration too early"@,
        LaunchError::InvalidParams => "Invalid launch parameters"@,
        LaunchError::InvalidFeeRecipient => "Invalid fee recipient"@,
    }
}

impl LaunchError {
    /// The human-readable message of the error.
    pub fn message(&self) -> (r: &'static str)
        ensures
            r@ == message_of(*self),
    {
        match self {
            LaunchError::NotInTradingWindow => "Trading window closed",
            LaunchError::ActionAlreadyPerformed => "Daily action already performed",
            LaunchError::ExceedsSellLimit => "Sell exceeds 10 % limit",
            LaunchError::ExceedsTransferLimit => "Transfer exceeds 20 % limit",
            LaunchError::InvalidDecimals => "Decimals must be 18 or fewer",
            LaunchError::SlippageExceeded => "Slippage limit hit",
            LaunchError::PayoutTooLow => "Payout below min_payout",
            LaunchError::MathOverflow => "Math overflow",
            LaunchError::InsufficientSupply => "Insufficient supply",
            LaunchError::InsufficientFunds => "Insufficient funds",
            LaunchError::InsufficientLiquidity => "Insufficient liquidity",
            LaunchError::Unauthorized => "Unauthorized signer",
            LaunchError::InvalidWindowTimes => "Invalid window parameters",
            LaunchError::PrematureMigration => "Migration too early",
            LaunchError::InvalidParams => "Invalid launch parameters",
            LaunchError::InvalidFeeRecipient => "Invalid fee recipient",
        }
    }
}

} // verus!
