use vstd::prelude::*;

verus! {

/// Reasons for which an escrow operation is rejected.
///
/// A rejected operation changes nothing: the error is its only result.
#[derive(Clone, Copy, Debug, PartialEq, Eq, Structural)]
pub enum HTLCError {
    /// The timelocks are not strictly increasing
    /// (finality < resolver < public < cancellation).
    InvalidTimelockOrder,
    /// The principal is zero.
    InvalidAmount,
    /// The source token is the null identity.
    InvalidTokenMint,
    /// The destination address or token is all zero, or the refund target
    /// named at cancellation is not the source of the escrow.
    InvalidDestination,
    /// The current time and caller do not allow a withdrawal.
    WithdrawalNotAllowed,
    /// The cancellation deadline has not been reached.
    CancellationNotAllowed,
    /// The escrow has already been withdrawn.
    AlreadyWithdrawn,
    /// The escrow has already been cancelled.
    AlreadyCancelled,
    /// The hash of the preimage is not the hashlock.
    InvalidPreimage,
    /// The safety deposit is zero.
    InvalidSafetyDeposit,
}

impl HTLCError {
    /// The text that describes each error.
    pub open spec fn message_text(self) -> Seq<char> {
        match self {
            HTLCError::InvalidTimelockOrder => "Invalid timelock ordering"@,
            HTLCError::InvalidAmount => "Amount must be greater than zero"@,
            HTLCError::InvalidTokenMint => "Invalid token mint"@,
            HTLCError::InvalidDestination => "Invalid destination address"@,
            HTLCError::WithdrawalNotAllowed => "Withdrawal not allowed at this time"@,
            HTLCError::CancellationNotAllowed => "Cancellation not allowed yet"@,
            HTLCError::AlreadyWithdrawn => "HTLC already withdrawn"@,
            HTLCError::AlreadyCancelled => "HTLC already cancelled"@,
            HTLCError::InvalidPreimage => "Invalid preimage"@,
            HTLCError::InvalidSafetyDeposit => "Safety deposit must be greater than zero"@,
        }
    }

    /// A short description of the error, for logs and tooling.
    pub fn message(&self) -> (text: &'static str)
        ensures
            text@ == self.message_text(),
    {
        match self {
            HTLCError::InvalidTimelockOrder => "Invalid timelock ordering",
            HTLCError::InvalidAmount => "Amount must be greater than zero",
            HTLCError::InvalidTokenMint => "Invalid token mint",
            HTLCError::InvalidDestination => "Invalid destination address",
            HTLCError::WithdrawalNotAllowed => "Withdrawal not allowed at this time",
            HTLCError::CancellationNotAllowed => "Cancellation not allowed yet",
            HTLCError::AlreadyWithdrawn => "HTLC already withdrawn",
            HTLCError::AlreadyCancelled => "HTLC already cancelled",
            HTLCError::InvalidPreimage => "Invalid preimage",
            HTLCError::InvalidSafetyDeposit => "Safety deposit must be greater than zero",
        }
    }
}

} // verus!
