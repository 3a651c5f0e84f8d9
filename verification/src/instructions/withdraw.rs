use vstd::prelude::*;
use crate::errors::HTLCError;
use crate::events::HTLCWithdrawn;
use crate::funds::Release;
use crate::hashlock::{digest_opens, opens, sha256, sha256_digest};
use crate::pubkey::Pubkey;
use crate::state::{Phase, HTLC};

verus! {

/// What a withdrawal works on.
#[derive(Clone, Copy, Debug, PartialEq, Eq)]
pub struct WithdrawToDestination {
    /// The authenticated caller; receives the principal and the safety
    /// deposit.
    pub executor: Pubkey,
    /// Address of the escrow record.
    pub htlc_account: Pubkey,
    /// The escrow record.
    pub htlc: HTLC,
}

/// Whether the period that `now` falls in lets `executor` withdraw.
pub open spec fn window_admits(htlc: HTLC, executor: Pubkey, now: i64) -> bool {
    match htlc.phase_at(now) {
        Phase::Finality => false,
        Phase::ResolverExclusive => executor == htlc.resolver,
        Phase::Public => true,
        Phase::Expired => false,
    }
}

/// Why a withdrawal is refused, if it is: the first check that fails, in
/// the order completion flags, preimage, time window. `digest` is the hash
/// of the candidate preimage.
pub open spec fn withdraw_refusal(htlc: HTLC, digest: Seq<u8>, executor: Pubkey, now: i64) -> Option<
    HTLCError,
> {
    if htlc.withdrawn {
        Some(HTLCError::AlreadyWithdrawn)
    } else if htlc.cancelled {
        Some(HTLCError::AlreadyCancelled)
    } else if !opens(htlc.hashlock, digest) {
        Some(HTLCError::InvalidPreimage)
    } else if !window_admits(htlc, executor, now) {
        Some(HTLCError::WithdrawalNotAllowed)
    } else {
        None
    }
}

/// The funds that a withdrawal hands out: principal and safety deposit both
/// go to the executor.
pub open spec fn withdraw_release(htlc: HTLC, executor: Pubkey) -> Release {
    Release {
        token: htlc.src_token,
        principal: htlc.amount,
        principal_to: executor,
        safety_deposit: htlc.safety_deposit,
        safety_deposit_to: executor,
    }
}

/// The notice that a withdrawal gives.
pub open spec fn withdrawn_event(
    htlc_account: Pubkey,
    htlc: HTLC,
    executor: Pubkey,
    preimage: [u8; 32],
) -> HTLCWithdrawn {
    HTLCWithdrawn { htlc_account, preimage, executor, destination: htlc.dst_address }
}

/// Withdraws from the escrow, given the hash `digest` of `preimage`.
///
/// On success the record is marked withdrawn and nothing else in it
/// changes; the result names the funds to hand out and the notice to give.
/// On refusal nothing changes.
pub fn withdraw_with_digest(
    ctx: &mut WithdrawToDestination,
    preimage: [u8; 32],
    digest: [u8; 32],
    now: i64,
) -> (result: Result<(Release, HTLCWithdrawn), HTLCError>)
    ensures
        match result {
            Ok((release, event)) => {
                &&& withdraw_refusal(old(ctx).htlc, digest@, old(ctx).executor, now) is None
                &&& *final(ctx) == (WithdrawToDestination {
                    htlc: old(ctx).htlc.after_withdrawal(),
                    ..*old(ctx)
                })
                &&& release == withdraw_release(old(ctx).htlc, old(ctx).executor)
                &&& event == withdrawn_event(
                    old(ctx).htlc_account,
                    old(ctx).htlc,
                    old(ctx).executor,
                    preimage,
                )
            },
            Err(error) => {
                &&& withdraw_refusal(old(ctx).htlc, digest@, old(ctx).executor, now) == Some(error)
                &&& *final(ctx) == *old(ctx)
            },
        },
{
    if ctx.htlc.withdrawn {
        return Err(HTLCError::AlreadyWithdrawn);
    }
    if ctx.htlc.cancelled {
        return Err(HTLCError::AlreadyCancelled);
    }
    if !digest_opens(&ctx.htlc.hashlock, &digest) {
        return Err(HTLCError::InvalidPreimage);
    }
    let is_resolver = ctx.executor == ctx.htlc.resolver;
    match ctx.htlc.phase(now) {
        Phase::Finality => {
            return Err(HTLCError::WithdrawalNotAllowed);
        },
        Phase::ResolverExclusive => {
            if !is_resolver {
                return Err(HTLCError::WithdrawalNotAllowed);
            }
        },
        Phase::Public => {},
        Phase::Expired => {
            return Err(HTLCError::WithdrawalNotAllowed);
        },
    }
    ctx.htlc.withdrawn = true;
    let release = Release {
        token: ctx.htlc.src_token,
        principal: ctx.htlc.amount,
        principal_to: ctx.executor,
        safety_deposit: ctx.htlc.safety_deposit,
        safety_deposit_to: ctx.executor,
    };
    let event = HTLCWithdrawn {
        htlc_account: ctx.htlc_account,
        preimage,
        executor: ctx.executor,
        destination: ctx.htlc.dst_address,
    };
    Ok((release, event))
}

/// Withdraws from the escrow with a candidate preimage.
///
/// Succeeds exactly when the escrow is still open, the SHA-256 digest of
/// the preimage is the hashlock, and the period that `now` falls in admits
/// the executor. On success the record is marked withdrawn and nothing else
/// in it changes; the result names the funds to hand out and the notice to
/// give. On refusal nothing changes.
pub fn handler(ctx: &mut WithdrawToDestination, preimage: [u8; 32], now: i64) -> (result: Result<
    (Release, HTLCWithdrawn),
    HTLCError,
>)
    ensures
        match result {
            Ok((release, event)) => {
                &&& withdraw_refusal(old(ctx).htlc, sha256(preimage@), old(ctx).executor, now) is None
                &&& *final(ctx) == (WithdrawToDestination {
                    htlc: old(ctx).htlc.after_withdrawal(),
                    ..*old(ctx)
                })
                &&& release == withdraw_release(old(ctx).htlc, old(ctx).executor)
                &&& event == withdrawn_event(
                    old(ctx).htlc_account,
                    old(ctx).htlc,
                    old(ctx).executor,
                    preimage,
                )
            },
            Err(error) => {
                &&& withdraw_refusal(old(ctx).htlc, sha256(preimage@), old(ctx).executor, now)
                    == Some(error)
                &&& *final(ctx) == *old(ctx)
            },
        },
{
    let digest = sha256_digest(&preimage);
    withdraw_with_digest(ctx, preimage, digest, now)
}

} // verus!
