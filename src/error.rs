//! The failures that trading operations report.
use vstd::prelude::*;

verus! {

/// Why an operation on trading state or on the broker did not succeed.
#[derive(Debug, Clone, Copy, PartialEq, Eq, Structural)]
pub enum TradeWebError {
    ReqwestError,
    JsonError,
    SqlxError,
    ChannelError,
    Alpaca422,
    Alpaca429,
    Alpaca403,
    TransactionNotFound,
    BuyOrderExists,
    PositionExists,
    DeleteFailed,
    NoSharesFound,
    SqlInjectionRisk,
}

/// Why a poll of stored snapshots did not succeed.
#[derive(Debug, Clone, Copy, PartialEq, Eq, Structural)]
pub enum PollerError {
    DifferentSizeSnapshots,
    SnapshotsNotOkayFromDatabase,
    Sqlx,
}

} // verus!
