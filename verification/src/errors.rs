//! The errors with which an instruction is rejected.

use vstd::prelude::*;

verus! {

/// Why an instruction was rejected. A rejected instruction changes nothing.
#[derive(Clone, Copy, Debug, PartialEq, Eq, Structural)]
pub enum ErrorCode {
    QuoteMintNotInPool,
    PositionWouldAccrueBaseFees,
    BaseFeesDetected,
    TooEarlyForDistribution,
    MathOverflow,
    InvalidTickRangeForQuoteOnly,
    PaginationStateMismatch,
    InvalidFeeShareBps,
    DailyCapExceeded,
    InvalidY0Allocation,
    InvalidInvestorCount,
    PolicyAlreadyInitialized,
    PositionAlreadyInitialized,
    InvalidStreamflowData,
    InsufficientFeeBalance,
    DistributionNotComplete,
    InvalidPageParameters,
    TickOutOfBounds,
}

/// The number reported for the first error; the others follow in the order
/// of their declaration.
pub const ERROR_CODE_OFFSET: u32 = 6000;

impl ErrorCode {
    /// The position of the error in the declaration, counted from zero.
    pub open spec fn index(self) -> int {
        match self {
            ErrorCode::QuoteMintNotInPool => 0,
            ErrorCode::PositionWouldAccrueBaseFees => 1,
            ErrorCode::BaseFeesDetected => 2,
            ErrorCode::TooEarlyForDistribution => 3,
            ErrorCode::MathOverflow => 4,
            ErrorCode::InvalidTickRangeForQuoteOnly => 5,
            ErrorCode::PaginationStateMismatch => 6,
            ErrorCode::InvalidFeeShareBps => 7,
            ErrorCode::DailyCapExceeded => 8,
            ErrorCode::InvalidY0Allocation => 9,
            ErrorCode::InvalidInvestorCount => 10,
            ErrorCode::PolicyAlreadyInitialized => 11,
            ErrorCode::PositionAlreadyInitialized => 12,
            ErrorCode::InvalidStreamflowData => 13,
            ErrorCode::InsufficientFeeBalance => 14,
            ErrorCode::DistributionNotComplete => 15,
            ErrorCode::InvalidPageParameters => 16,
            ErrorCode::TickOutOfBounds => 17,
        }
    }

    /// The text shown for the error.
    pub open spec fn text(self) -> Seq<char> {
        match self {
            ErrorCode::QuoteMintNotInPool => "Quote mint not found in pool"@,
            ErrorCode::PositionWouldAccrueBaseFees => "Position would accrue base fees - invalid tick range"@,
            ErrorCode::BaseFeesDetected => "Base fees detected - refusing to distribute"@,
            ErrorCode::TooEarlyForDistribution => "Too early for distribution - 24h not elapsed"@,
            ErrorCode::MathOverflow => "Math overflow detected"@,
            ErrorCode::InvalidTickRangeForQuoteOnly => "Invalid tick range for quote-only position"@,
            ErrorCode::PaginationStateMismatch => "Pagination state mismatch"@,
            ErrorCode::InvalidFeeShareBps => "Invalid fee share basis points"@,
            ErrorCode::DailyCapExceeded => "Daily cap exceeded"@,
            ErrorCode::InvalidY0Allocation => "Invalid Y0 allocation"@,
            ErrorCode::InvalidInvestorCount => "Invalid investor count"@,
            ErrorCode::PolicyAlreadyInitialized => "Policy already initialized"@,
            ErrorCode::PositionAlreadyInitialized => "Position already initialized"@,
            ErrorCode::InvalidStreamflowData => "Invalid Streamflow data"@,
            ErrorCode::InsufficientFeeBalance => "Insufficient fee balance"@,
            ErrorCode::DistributionNotComplete => "Distribution not complete"@,
            ErrorCode::InvalidPageParameters => "Invalid page parameters"@,
            ErrorCode::TickOutOfBounds => "Tick out of bounds"@,
        }
    }

    /// The stable number under which the error is reported.
    pub fn code(&self) -> (code: u32)
        ensures
            code == ERROR_CODE_OFFSET + self.index(),
    {
        match self {
            ErrorCode::QuoteMintNotInPool => ERROR_CODE_OFFSET,
            ErrorCode::PositionWouldAccrueBaseFees => ERROR_CODE_OFFSET + 1,
            ErrorCode::BaseFeesDetected => ERROR_CODE_OFFSET + 2,
            ErrorCode::TooEarlyForDistribution => ERROR_CODE_OFFSET + 3,
            ErrorCode::MathOverflow => ERROR_CODE_OFFSET + 4,
            ErrorCode::InvalidTickRangeForQuoteOnly => ERROR_CODE_OFFSET + 5,
            ErrorCode::PaginationStateMismatch => ERROR_CODE_OFFSET + 6,
            ErrorCode::InvalidFeeShareBps => ERROR_CODE_OFFSET + 7,
            ErrorCode::DailyCapExceeded => ERROR_CODE_OFFSET + 8,
            ErrorCode::InvalidY0Allocation => ERROR_CODE_OFFSET + 9,
            ErrorCode::InvalidInvestorCount => ERROR_CODE_OFFSET + 10,
            ErrorCode::PolicyAlreadyInitialized => ERROR_CODE_OFFSET + 11,
            ErrorCode::PositionAlreadyInitialized => ERROR_CODE_OFFSET + 12,
            ErrorCode::InvalidStreamflowData => ERROR_CODE_OFFSET + 13,
            ErrorCode::InsufficientFeeBalance => ERROR_CODE_OFFSET + 14,
            ErrorCode::DistributionNotComplete => ERROR_CODE_OFFSET + 15,
            ErrorCode::InvalidPageParameters => ERROR_CODE_OFFSET + 16,
            ErrorCode::TickOutOfBounds => ERROR_CODE_OFFSET + 17,
        }
    }

    /// The text shown for the error.
    pub fn message(&self) -> (msg: &'static str)
        ensures
            msg@ == self.text(),
    {
        match self {
            ErrorCode::QuoteMintNotInPool => "Quote mint not found in pool",
            ErrorCode::PositionWouldAccrueBaseFees => "Position would accrue base fees - invalid tick range",
            ErrorCode::BaseFeesDetected => "Base fees detected - refusing to distribute",
            ErrorCode::TooEarlyForDistribution => "Too early for distribution - 24h not elapsed",
            ErrorCode::MathOverflow => "Math overflow detected",
            ErrorCode::InvalidTickRangeForQuoteOnly => "Invalid tick range for quote-only position",
            ErrorCode::PaginationStateMismatch => "Pagination state mismatch",
            ErrorCode::InvalidFeeShareBps => "Invalid fee share basis points",
            ErrorCode::DailyCapExceeded => "Daily cap exceeded",
            ErrorCode::InvalidY0Allocation => "Invalid Y0 allocation",
            ErrorCode::InvalidInvestorCount => "Invalid investor count",
            ErrorCode::PolicyAlreadyInitialized => "Policy already initialized",
            ErrorCode::PositionAlreadyInitialized => "Position already initialized",
            ErrorCode::InvalidStreamflowData => "Invalid Streamflow data",
            ErrorCode::InsufficientFeeBalance => "Insufficient fee balance",
            ErrorCode::DistributionNotComplete => "Distribution not complete",
            ErrorCode::InvalidPageParameters => "Invalid page parameters",
            ErrorCode::TickOutOfBounds => "Tick out of bounds",
        }
    }

    /// Different errors are reported under different numbers.
    pub proof fn lemma_codes_distinct(self, other: ErrorCode)
        ensures
            self.index() == other.index() <==> self == other,
            0 <= self.index() < 18,
    {
    }
}

} // verus!
