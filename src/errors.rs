use vstd::prelude::*;

verus! {

/// Errors of the stake lifecycle.
#[derive(Clone, Copy, Debug, PartialEq, Eq, Structural)]
pub enum DealifiError {
    /// Kept for compatibility; no operation raises it.
    AlreadyStaked,
    /// Unstake on a claim whose staked flag is already false.
    NotStaked,
}

/// Errors of the size budgets of text fields.
#[derive(Clone, Copy, Debug, PartialEq, Eq, Structural)]
pub enum ErrorCode {
    /// A merchant name or deal name prefix is over its byte budget.
    NameTooLong,
    /// A deal uri prefix is over its byte budget.
    UriTooLong,
}

/// Every way in which an operation on the ledger can fail.
#[derive(Clone, Copy, Debug, PartialEq, Eq, Structural)]
pub enum LedgerError {
    /// A size budget was exceeded.
    Program(ErrorCode),
    /// The stake lifecycle forbids the step.
    Dealifi(DealifiError),
    /// The derived record address already holds a record.
    AccountInUse,
    /// No record is stored at the address that was looked up.
    AccountNotFound,
    /// The caller is not the identity stored as the record's authority.
    Unauthorized,
    /// No program address could be derived from the seeds.
    AddressDerivation,
}

} // verus!
