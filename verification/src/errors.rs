use vstd::prelude::*;

verus! {

/// Why a trading call was abandoned.
#[derive(Debug, Clone, PartialEq, Eq)]
pub enum TradingEndpointError {
    /// A pool reserve is zero, so no price exists.
    PoolUninitialized,
    /// The venue does not offer the requested operation.
    VenueUnsupportedOperation,
    /// A provider publishes a tip account but no tip amount is configured
    /// for the operation. Carries the provider's name.
    MissingFeeOrTipConfiguration(String),
    /// A venue or token-program instruction could not be encoded.
    InstructionBuildError(String),
    /// The transaction could not be compiled or signed.
    SigningError(String),
    /// One or more providers rejected a submission.
    ProviderSubmissionError(String),
    /// A ledger read failed.
    LedgerQueryError(String),
    /// An amount left the range of a 64-bit count.
    AmountOutOfRange,
    /// A transaction could not be brought into its wire format.
    EncodingError(String),
}

} // verus!
