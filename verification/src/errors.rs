use vstd::prelude::*;

verus! {

/// Why an instruction was refused.
#[derive(Clone, Copy, Debug, PartialEq, Eq, Structural)]
pub enum ErrorCode {
    NotAdmin,
    Unauthorized,
    Paused,
    MaxPositionsReached,
    SlippageExceeded,
    InsufficientBalance,
    PositionNotFound,
    NoLiquidityInPool,
    InsufficientPoolBalance,
    PoolNotActive,
    LiquidityPoolOverflow,
    InvalidERValidator,
    SessionNotAuthenticated,
    SessionNotAuthorized,
    UserNotAuthorized,
}

impl ErrorCode {
    /// The text of the message that goes with the error.
    pub open spec fn message(self) -> Seq<char> {
        match self {
            ErrorCode::NotAdmin => "Not Admin"@,
            ErrorCode::Unauthorized => "Unauthorized"@,
            ErrorCode::Paused => "Paused"@,
            ErrorCode::MaxPositionsReached => "Max Positions Reached"@,
            ErrorCode::SlippageExceeded => "Slippage Exceeded"@,
            ErrorCode::InsufficientBalance => "Insufficient Balance"@,
            ErrorCode::PositionNotFound => "Position Not Found"@,
            ErrorCode::NoLiquidityInPool => "No Liquidity In Pool"@,
            ErrorCode::InsufficientPoolBalance => "Insufficient Pool Balance"@,
            ErrorCode::PoolNotActive => "Pool Not Active"@,
            ErrorCode::LiquidityPoolOverflow => "Liquidity Pool Overflow"@,
            ErrorCode::InvalidERValidator => "Invalid ER Validator"@,
            ErrorCode::SessionNotAuthenticated => "Session Not Authenticated"@,
            ErrorCode::SessionNotAuthorized => "Session Not Authorized"@,
            ErrorCode::UserNotAuthorized => "User Not Authorized"@,
        }
    }

    /// The message that goes with the error.
    pub fn msg(&self) -> (r: &'static str)
        ensures
            r@ == self.message(),
    {
        match self {
            ErrorCode::NotAdmin => "Not Admin",
            ErrorCode::Unauthorized => "Unauthorized",
            ErrorCode::Paused => "Paused",
            ErrorCode::MaxPositionsReached => "Max Positions Reached",
            ErrorCode::SlippageExceeded => "Slippage Exceeded",
            ErrorCode::InsufficientBalance => "Insufficient Balance",
            ErrorCode::PositionNotFound => "Position Not Found",
            ErrorCode::NoLiquidityInPool => "No Liquidity In Pool",
            ErrorCode::InsufficientPoolBalance => "Insufficient Pool Balance",
            ErrorCode::PoolNotActive => "Pool Not Active",
            ErrorCode::LiquidityPoolOverflow => "Liquidity Pool Overflow",
            ErrorCode::InvalidERValidator => "Invalid ER Validator",
            ErrorCode::SessionNotAuthenticated => "Session Not Authenticated",
            ErrorCode::SessionNotAuthorized => "Session Not Authorized",
            ErrorCode::UserNotAuthorized => "User Not Authorized",
        }
    }
}

} // verus!
