use vstd::prelude::*;

verus! {

/// Every way an operation of this library can refuse to act.
///
/// All errors are surfaced to the caller verbatim; nothing is retried or
/// silently recovered. A failed operation leaves every ledger and page
/// exactly as it was.
#[derive(Clone, Copy, Debug, PartialEq, Eq, Structural)]
pub enum ErrorCode {
    /// A doctrine id outside the accepted range of 1 through 10.
    InvalidDoctrineId,
    /// The supplied asset reference does not match the one recorded at
    /// system setup.
    InvalidTokenMint,
    /// A rollover would push the page number past the maximum.
    PageNumberOverflow,
    /// The supplied page does not belong to the doctrine, or its number
    /// does not match the doctrine's active page pointer.
    InvalidPage,
    /// A same-page append was attempted on a page already at capacity.
    PageIsFull,
    /// A rollover was attempted while the current page is not yet full.
    CurrentPageNotFull,
    /// The fee escalation would overflow its intermediate product.
    Overflow,
    /// The debit collaborator reported that no value could be taken.
    DebitFailed,
}

} // verus!
