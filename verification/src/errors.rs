use vstd::prelude::*;

verus! {

/// Errors the auto-trade contract reports. On the ledger each error travels
/// as its numeric code (see [`AutoTradeError::code`]).
#[derive(Clone, Copy, Debug, PartialEq, Eq, Structural)]
pub enum AutoTradeError {
    InvalidAmount,
    Unauthorized,
    SignalNotFound,
    SignalExpired,
    InsufficientBalance,
    InsufficientLiquidity,
    DailyTradeLimitExceeded,
    PositionLimitExceeded,
    StopLossTriggered,
    DcaStrategyNotFound,
    DcaStrategyInactive,
    DcaEndTimeReached,
    MrStrategyNotFound,
    MrInsufficientHistory,
    MrLowVolatility,
}

/// The ledger code of each auto-trade error: 1 to 15 in declaration order.
pub open spec fn auto_trade_error_code(e: AutoTradeError) -> u32 {
    match e {
        AutoTradeError::InvalidAmount => 1,
        AutoTradeError::Unauthorized => 2,
        AutoTradeError::SignalNotFound => 3,
        AutoTradeError::SignalExpired => 4,
        AutoTradeError::InsufficientBalance => 5,
        AutoTradeError::InsufficientLiquidity => 6,
        AutoTradeError::DailyTradeLimitExceeded => 7,
        AutoTradeError::PositionLimitExceeded => 8,
        AutoTradeError::StopLossTriggered => 9,
        AutoTradeError::DcaStrategyNotFound => 10,
        AutoTradeError::DcaStrategyInactive => 11,
        AutoTradeError::DcaEndTimeReached => 12,
        AutoTradeError::MrStrategyNotFound => 13,
        AutoTradeError::MrInsufficientHistory => 14,
        AutoTradeError::MrLowVolatility => 15,
    }
}

/// The auto-trade error that a ledger code stands for, if any.
pub open spec fn auto_trade_error_from_code(code: u32) -> Option<AutoTradeError> {
    if code == 1 {
        Some(AutoTradeError::InvalidAmount)
    } else if code == 2 {
        Some(AutoTradeError::Unauthorized)
    } else if code == 3 {
        Some(AutoTradeError::SignalNotFound)
    } else if code == 4 {
        Some(AutoTradeError::SignalExpired)
    } else if code == 5 {
        Some(AutoTradeError::InsufficientBalance)
    } else if code == 6 {
        Some(AutoTradeError::InsufficientLiquidity)
    } else if code == 7 {
        Some(AutoTradeError::DailyTradeLimitExceeded)
    } else if code == 8 {
        Some(AutoTradeError::PositionLimitExceeded)
    } else if code == 9 {
        Some(AutoTradeError::StopLossTriggered)
    } else if code == 10 {
        Some(AutoTradeError::DcaStrategyNotFound)
    } else if code == 11 {
        Some(AutoTradeError::DcaStrategyInactive)
    } else if code == 12 {
        Some(AutoTradeError::DcaEndTimeReached)
    } else if code == 13 {
        Some(AutoTradeError::MrStrategyNotFound)
    } else if code == 14 {
        Some(AutoTradeError::MrInsufficientHistory)
    } else if code == 15 {
        Some(AutoTradeError::MrLowVolatility)
    } else {
        None
    }
}

impl AutoTradeError {
    /// The numeric code under which this error is reported on the ledger.
    pub fn code(&self) -> (r: u32)
        ensures
            r == auto_trade_error_code(*self),
    {
        match self {
            AutoTradeError::InvalidAmount => 1,
            AutoTradeError::Unauthorized => 2,
            AutoTradeError::SignalNotFound => 3,
            AutoTradeError::SignalExpired => 4,
            AutoTradeError::InsufficientBalance => 5,
            AutoTradeError::InsufficientLiquidity => 6,
            AutoTradeError::DailyTradeLimitExceeded => 7,
            AutoTradeError::PositionLimitExceeded => 8,
            AutoTradeError::StopLossTriggered => 9,
            AutoTradeError::DcaStrategyNotFound => 10,
            AutoTradeError::DcaStrategyInactive => 11,
            AutoTradeError::DcaEndTimeReached => 12,
            AutoTradeError::MrStrategyNotFound => 13,
            AutoTradeError::MrInsufficientHistory => 14,
            AutoTradeError::MrLowVolatility => 15,
        }
    }

    /// The error reported under `code`, or `None` for a code no error uses.
    pub fn from_code(code: u32) -> (r: Option<AutoTradeError>)
        ensures
            r == auto_trade_error_from_code(code),
    {
        if code == 1 {
            Some(AutoTradeError::InvalidAmount)
        } else if code == 2 {
            Some(AutoTradeError::Unauthorized)
        } else if code == 3 {
            Some(AutoTradeError::SignalNotFound)
        } else if code == 4 {
            Some(AutoTradeError::SignalExpired)
        } else if code == 5 {
            Some(AutoTradeError::InsufficientBalance)
        } else if code == 6 {
            Some(AutoTradeError::InsufficientLiquidity)
        } else if code == 7 {
            Some(AutoTradeError::DailyTradeLimitExceeded)
        } else if code == 8 {
            Some(AutoTradeError::PositionLimitExceeded)
        } else if code == 9 {
            Some(AutoTradeError::StopLossTriggered)
        } else if code == 10 {
            Some(AutoTradeError::DcaStrategyNotFound)
        } else if code == 11 {
            Some(AutoTradeError::DcaStrategyInactive)
        } else if code == 12 {
            Some(AutoTradeError::DcaEndTimeReached)
        } else if code == 13 {
            Some(AutoTradeError::MrStrategyNotFound)
        } else if code == 14 {
            Some(AutoTradeError::MrInsufficientHistory)
        } else if code == 15 {
            Some(AutoTradeError::MrLowVolatility)
        } else {
            None
        }
    }
}

/// Every auto-trade error is recovered from its own code.
pub proof fn law_auto_trade_code_round_trip(e: AutoTradeError)
    ensures
        auto_trade_error_from_code(auto_trade_error_code(e)) == Some(e),
        1 <= auto_trade_error_code(e) <= 15,
{
}

/// A code that stands for an error is that error's code.
pub proof fn law_auto_trade_code_decodes_exactly(code: u32)
    ensures
        auto_trade_error_from_code(code) matches Some(e) ==> auto_trade_error_code(e) == code,
        auto_trade_error_from_code(code) is Some <==> 1 <= code <= 15,
{
}

} // verus!
