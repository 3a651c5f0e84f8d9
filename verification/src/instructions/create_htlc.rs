use vstd::prelude::*;
use crate::errors::HTLCError;
use crate::events::HTLCCreated;
use crate::funds::Lock;
use crate::pubkey::{all_zero, is_all_zero, Pubkey};
use crate::state::{timelocks_ordered, HTLC};

verus! {

/// What the resolver asks for when opening an escrow.
#[derive(Clone, Copy, Debug, PartialEq, Eq)]
pub struct CreateHTLCParams {
    /// Cross-chain identifier of the swap.
    pub htlc_id: [u8; 32],
    /// Recipient on the counterpart chain.
    pub dst_address: [u8; 20],
    /// Token on the counterpart chain.
    pub dst_token: [u8; 20],
    /// Principal, in the token's smallest unit.
    pub amount: u64,
    /// Incentive in native currency for whoever completes the escrow.
    pub safety_deposit: u64,
    /// Digest that the preimage must hash to.
    pub hashlock: [u8; 32],
    /// Time at which the finality period ends.
    pub finality_deadline: i64,
    /// Time at which the resolver's exclusive period ends.
    pub resolver_deadline: i64,
    /// Time at which the public withdrawal period ends.
    pub public_deadline: i64,
    /// Time from which cancellation is allowed.
    pub cancellation_deadline: i64,
}

/// What a creation works on.
#[derive(Clone, Copy, Debug, PartialEq, Eq)]
pub struct CreateHTLC {
    /// The authenticated caller; supplies the principal and the deposit.
    pub resolver: Pubkey,
    /// Address of the escrow record.
    pub htlc_account: Pubkey,
    /// The escrow record, filled in by the creation.
    pub htlc: HTLC,
    /// Bump seed of the record's address.
    pub bump: u8,
    /// Token that the principal is held in.
    pub token_mint: Pubkey,
}

/// Why a creation is refused, if it is: the first rule that the parameters
/// break, in the order amount, safety deposit, source token, destination,
/// timelocks.
pub open spec fn create_refusal(params: CreateHTLCParams, token_mint: Pubkey) -> Option<HTLCError> {
    if params.amount == 0 {
        Some(HTLCError::InvalidAmount)
    } else if params.safety_deposit == 0 {
        Some(HTLCError::InvalidSafetyDeposit)
    } else if token_mint.is_null() {
        Some(HTLCError::InvalidTokenMint)
    } else if all_zero(params.dst_address@) || all_zero(params.dst_token@) {
        Some(HTLCError::InvalidDestination)
    } else if !timelocks_ordered(
        params.finality_deadline,
        params.resolver_deadline,
        params.public_deadline,
        params.cancellation_deadline,
    ) {
        Some(HTLCError::InvalidTimelockOrder)
    } else {
        None
    }
}

/// The record of a newly created escrow: open, with the resolver as the
/// source to refund.
pub open spec fn created_record(
    resolver: Pubkey,
    token_mint: Pubkey,
    bump: u8,
    params: CreateHTLCParams,
    now: i64,
) -> HTLC {
    HTLC {
        resolver,
        src_address: resolver,
        dst_address: params.dst_address,
        src_token: token_mint,
        dst_token: params.dst_token,
        amount: params.amount,
        safety_deposit: params.safety_deposit,
        hashlock: params.hashlock,
        htlc_id: params.htlc_id,
        finality_deadline: params.finality_deadline,
        resolver_deadline: params.resolver_deadline,
        public_deadline: params.public_deadline,
        cancellation_deadline: params.cancellation_deadline,
        withdrawn: false,
        cancelled: false,
        created_at: now,
        bump,
    }
}

/// The funds that a creation takes from the resolver.
pub open spec fn create_lock(resolver: Pubkey, token_mint: Pubkey, params: CreateHTLCParams) -> Lock {
    Lock {
        payer: resolver,
        token: token_mint,
        principal: params.amount,
        safety_deposit: params.safety_deposit,
    }
}

/// The notice that a creation gives.
pub open spec fn created_event(
    htlc_account: Pubkey,
    resolver: Pubkey,
    params: CreateHTLCParams,
) -> HTLCCreated {
    HTLCCreated {
        htlc_account,
        htlc_id: params.htlc_id,
        resolver,
        dst_address: params.dst_address,
        amount: params.amount,
        hashlock: params.hashlock,
        finality_deadline: params.finality_deadline,
    }
}

impl CreateHTLCParams {
    /// Checks the parameters of a creation against the rules for amounts,
    /// source token, destination and timelocks, and reports the first rule
    /// that is broken.
    pub fn validate(&self, token_mint: &Pubkey) -> (result: Result<(), HTLCError>)
        ensures
            match result {
                Ok(_) => create_refusal(*self, *token_mint) is None,
                Err(error) => create_refusal(*self, *token_mint) == Some(error),
            },
    {
        if self.amount == 0 {
            return Err(HTLCError::InvalidAmount);
        }
        if self.safety_deposit == 0 {
            return Err(HTLCError::InvalidSafetyDeposit);
        }
        if token_mint.is_default() {
            return Err(HTLCError::InvalidTokenMint);
        }
        if is_all_zero(&self.dst_address) {
            return Err(HTLCError::InvalidDestination);
        }
        if is_all_zero(&self.dst_token) {
            return Err(HTLCError::InvalidDestination);
        }
        if !(self.finality_deadline < self.resolver_deadline && self.resolver_deadline
            < self.public_deadline && self.public_deadline < self.cancellation_deadline) {
            return Err(HTLCError::InvalidTimelockOrder);
        }
        Ok(())
    }
}

/// Opens an escrow.
///
/// Succeeds exactly when the parameters pass validation. On success the
/// record is filled in from the parameters, the caller and the time, with
/// both completion flags clear; the result names the funds to lock and the
/// notice to give. On refusal nothing changes.
pub fn handler(ctx: &mut CreateHTLC, params: CreateHTLCParams, now: i64) -> (result: Result<
    (Lock, HTLCCreated),
    HTLCError,
>)
    ensures
        match result {
            Ok((lock, event)) => {
                &&& create_refusal(params, old(ctx).token_mint) is None
                &&& *final(ctx) == (CreateHTLC {
                    htlc: created_record(
                        old(ctx).resolver,
                        old(ctx).token_mint,
                        old(ctx).bump,
                        params,
                        now,
                    ),
                    ..*old(ctx)
                })
                &&& lock == create_lock(old(ctx).resolver, old(ctx).token_mint, params)
                &&& event == created_event(old(ctx).htlc_account, old(ctx).resolver, params)
            },
            Err(error) => {
                &&& create_refusal(params, old(ctx).token_mint) == Some(error)
                &&& *final(ctx) == *old(ctx)
            },
        },
{
    match params.validate(&ctx.token_mint) {
        Err(error) => {
            return Err(error);
        },
        Ok(_) => {},
    }
    ctx.htlc = HTLC {
        resolver: ctx.resolver,
        src_address: ctx.resolver,
        dst_address: params.dst_address,
        src_token: ctx.token_mint,
        dst_token: params.dst_token,
        amount: params.amount,
        safety_deposit: params.safety_deposit,
        hashlock: params.hashlock,
        htlc_id: params.htlc_id,
        finality_deadline: params.finality_deadline,
        resolver_deadline: params.resolver_deadline,
        public_deadline: params.public_deadline,
        cancellation_deadline: params.cancellation_deadline,
        withdrawn: false,
        cancelled: false,
        created_at: now,
        bump: ctx.bump,
    };
    let lock = Lock {
        payer: ctx.resolver,
        token: ctx.token_mint,
        principal: params.amount,
        safety_deposit: params.safety_deposit,
    };
    let event = HTLCCreated {
        htlc_account: ctx.htlc_account,
        htlc_id: params.htlc_id,
        resolver: ctx.resolver,
        dst_address: params.dst_address,
        amount: params.amount,
        hashlock: params.hashlock,
        finality_deadline: params.finality_deadline,
    };
    Ok((lock, event))
}

} // verus!
