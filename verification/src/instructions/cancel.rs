use vstd::prelude::*;
use crate::errors::HTLCError;
use crate::events::HTLCCancelled;
use crate::funds::Release;
use crate::pubkey::Pubkey;
use crate::state::HTLC;

verus! {

/// What a cancellation works on.
#[derive(Clone, Copy, Debug, PartialEq, Eq)]
pub struct Cancel {
    /// The authenticated caller; receives the safety deposit.
    pub executor: Pubkey,
    /// Address of the escrow record.
    pub htlc_account: Pubkey,
    /// The escrow record.
    pub htlc: HTLC,
    /// The identity that the caller names as the one to refund.
    pub src_address: Pubkey,
}

/// Why a cancellation is refused, if it is: the first check that fails, in
/// the order refund target, completion flags, cancellation deadline.
pub open spec fn cancel_refusal(htlc: HTLC, src_address: Pubkey, now: i64) -> Option<HTLCError> {
    if src_address != htlc.src_address {
        Some(HTLCError::InvalidDestination)
    } else if htlc.withdrawn {
        Some(HTLCError::AlreadyWithdrawn)
    } else if htlc.cancelled {
        Some(HTLCError::AlreadyCancelled)
    } else if now < htlc.cancellation_deadline {
        Some(HTLCError::CancellationNotAllowed)
    } else {
        None
    }
}

/// The funds that a cancellation hands out: the principal goes back to the
/// source, the safety deposit to the executor.
pub open spec fn cancel_release(htlc: HTLC, executor: Pubkey) -> Release {
    Release {
        token: htlc.src_token,
        principal: htlc.amount,
        principal_to: htlc.src_address,
        safety_deposit: htlc.safety_deposit,
        safety_deposit_to: executor,
    }
}

/// The notice that a cancellation gives.
pub open spec fn cancelled_event(htlc_account: Pubkey, executor: Pubkey) -> HTLCCancelled {
    HTLCCancelled { htlc_account, executor }
}

/// Cancels the escrow and refunds its source.
///
/// Succeeds exactly when the named refund target is the source of the
/// escrow, the escrow is still open, and `now` has reached the cancellation
/// deadline; who the executor is plays no part. On success the record is
/// marked cancelled and nothing else in it changes; the result names the
/// funds to hand out and the notice to give. On refusal nothing changes.
pub fn handler(ctx: &mut Cancel, now: i64) -> (result: Result<(Release, HTLCCancelled), HTLCError>)
    ensures
        match result {
            Ok((release, event)) => {
                &&& cancel_refusal(old(ctx).htlc, old(ctx).src_address, now) is None
                &&& *final(ctx) == (Cancel { htlc: old(ctx).htlc.after_cancellation(), ..*old(ctx) })
                &&& release == cancel_release(old(ctx).htlc, old(ctx).executor)
                &&& event == cancelled_event(old(ctx).htlc_account, old(ctx).executor)
            },
            Err(error) => {
                &&& cancel_refusal(old(ctx).htlc, old(ctx).src_address, now) == Some(error)
                &&& *final(ctx) == *old(ctx)
            },
        },
{
    if ctx.src_address != ctx.htlc.src_address {
        return Err(HTLCError::InvalidDestination);
    }
    if ctx.htlc.withdrawn {
        return Err(HTLCError::AlreadyWithdrawn);
    }
    if ctx.htlc.cancelled {
        return Err(HTLCError::AlreadyCancelled);
    }
    if now < ctx.htlc.cancellation_deadline {
        return Err(HTLCError::CancellationNotAllowed);
    }
    ctx.htlc.cancelled = true;
    let release = Release {
        token: ctx.htlc.src_token,
        principal: ctx.htlc.amount,
        principal_to: ctx.htlc.src_address,
        safety_deposit: ctx.htlc.safety_deposit,
        safety_deposit_to: ctx.executor,
    };
    let event = HTLCCancelled { htlc_account: ctx.htlc_account, executor: ctx.executor };
    Ok((release, event))
}

} // verus!
