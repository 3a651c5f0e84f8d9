//! A hashed timelock contract: the escrow that forms one leg of a
//! cross-chain atomic swap.
//!
//! A resolver locks tokens and a safety deposit behind a hashlock and four
//! timelocks. Whoever reveals the preimage within the withdrawal periods
//! receives the principal; once the cancellation deadline has passed,
//! anyone can have the principal refunded to its source. Exactly one of the
//! two ever happens.

use vstd::prelude::*;
use crate::events::{HTLCCancelled, HTLCCreated, HTLCWithdrawn};
use crate::funds::{Lock, Release};
use crate::hashlock::{sha256, sha256_digest};
use crate::instructions::cancel::{cancel_refusal, cancel_release, cancelled_event};
use crate::instructions::create_htlc::{create_lock, create_refusal, created_event, created_record};
use crate::instructions::withdraw::{withdraw_refusal, withdraw_release, withdrawn_event};
use crate::instructions::{Cancel, CreateHTLC, CreateHTLCParams, WithdrawToDestination};
use crate::ledger::{address_of, record_address, Escrow, Ledger, LedgerError};
use crate::pubkey::Pubkey;
use crate::state::HTLC;

pub mod errors;
pub mod events;
pub mod funds;
pub mod hashlock;
pub mod instructions;
pub mod laws;
pub mod ledger;
pub mod pubkey;
pub mod state;

verus! {

/// Why creating an escrow on a ledger fails, if it does: the parameters
/// are validated first, and only valid ones are held against the ledger,
/// where a record already stored under the identifier stops the creation.
pub open spec fn create_failure(
    escrows: Map<Seq<u8>, Escrow>,
    token_mint: Pubkey,
    params: CreateHTLCParams,
) -> Option<LedgerError> {
    match create_refusal(params, token_mint) {
        Some(error) => Some(LedgerError::Rejected(error)),
        None => if escrows.contains_key(params.htlc_id@) {
            Some(LedgerError::RecordExists)
        } else {
            None
        },
    }
}

/// Why withdrawing from an escrow on a ledger fails, if it does. `digest`
/// is the hash of the candidate preimage.
pub open spec fn withdraw_failure(
    escrows: Map<Seq<u8>, Escrow>,
    executor: Pubkey,
    htlc_account: Pubkey,
    digest: Seq<u8>,
    now: i64,
) -> Option<LedgerError> {
    if !escrows.contains_key(htlc_account.bytes@) {
        Some(LedgerError::RecordNotFound)
    } else {
        match withdraw_refusal(escrows[htlc_account.bytes@].record, digest, executor, now) {
            Some(error) => Some(LedgerError::Rejected(error)),
            None => None,
        }
    }
}

/// Why cancelling an escrow on a ledger fails, if it does.
pub open spec fn cancel_failure(
    escrows: Map<Seq<u8>, Escrow>,
    htlc_account: Pubkey,
    src_address: Pubkey,
    now: i64,
) -> Option<LedgerError> {
    if !escrows.contains_key(htlc_account.bytes@) {
        Some(LedgerError::RecordNotFound)
    } else {
        match cancel_refusal(escrows[htlc_account.bytes@].record, src_address, now) {
            Some(error) => Some(LedgerError::Rejected(error)),
            None => None,
        }
    }
}

/// Creates a new escrow on the ledger, at the address that its identifier
/// gives it.
///
/// Succeeds exactly when the parameters pass validation and no record is
/// stored under the identifier yet; invalid parameters are rejected with
/// their own error whatever the ledger holds. The new escrow then holds the
/// principal in its vault and the safety deposit in its balance, and no
/// other escrow changes; the result names the funds taken from the resolver
/// and the notice to give. The ledger's addresses need no bump seed: the
/// record's is 0. On failure the ledger is unchanged.
pub fn create_htlc(
    ledger: &mut Ledger,
    resolver: Pubkey,
    token_mint: Pubkey,
    params: CreateHTLCParams,
    now: i64,
) -> (result: Result<(Lock, HTLCCreated), LedgerError>)
    requires
        old(ledger).well_formed(),
    ensures
        final(ledger).well_formed(),
        match result {
            Ok((lock, event)) => {
                &&& create_failure(old(ledger)@, token_mint, params) is None
                &&& final(ledger)@ == old(ledger)@.insert(
                    params.htlc_id@,
                    Escrow::funded(created_record(resolver, token_mint, 0, params, now)),
                )
                &&& lock == create_lock(resolver, token_mint, params)
                &&& event == created_event(record_address(params.htlc_id), resolver, params)
            },
            Err(error) => {
                &&& create_failure(old(ledger)@, token_mint, params) == Some(error)
                &&& final(ledger)@ == old(ledger)@
            },
        },
{
    let htlc_account = address_of(&params.htlc_id);
    let mut ctx = CreateHTLC { resolver, htlc_account, htlc: HTLC::default(), bump: 0, token_mint };
    match instructions::create_htlc::handler(&mut ctx, params, now) {
        Ok((lock, event)) => {
            if ledger.contains(&htlc_account) {
                return Err(LedgerError::RecordExists);
            }
            ledger.open(ctx.htlc);
            Ok((lock, event))
        },
        Err(error) => Err(LedgerError::Rejected(error)),
    }
}

/// Withdraws from the escrow stored under `htlc_account`, given the hash
/// `digest` of `preimage`.
///
/// On success the record is marked withdrawn, the escrow's vault and
/// balance are emptied, and no other escrow changes; the result names the
/// funds handed out and the notice to give. On failure the ledger is
/// unchanged.
pub fn withdraw_with_digest(
    ledger: &mut Ledger,
    executor: Pubkey,
    htlc_account: Pubkey,
    preimage: [u8; 32],
    digest: [u8; 32],
    now: i64,
) -> (result: Result<(Release, HTLCWithdrawn), LedgerError>)
    requires
        old(ledger).well_formed(),
    ensures
        final(ledger).well_formed(),
        match result {
            Ok((release, event)) => {
                let held = old(ledger)@[htlc_account.bytes@];
                &&& withdraw_failure(old(ledger)@, executor, htlc_account, digest@, now) is None
                &&& final(ledger)@ == old(ledger)@.insert(
                    htlc_account.bytes@,
                    Escrow::emptied(held.record.after_withdrawal()),
                )
                &&& release == withdraw_release(held.record, executor)
                &&& release.principal == held.vault
                &&& release.safety_deposit == held.balance
                &&& event == withdrawn_event(htlc_account, held.record, executor, preimage)
            },
            Err(error) => {
                &&& withdraw_failure(old(ledger)@, executor, htlc_account, digest@, now) == Some(
                    error,
                )
                &&& final(ledger)@ == old(ledger)@
            },
        },
{
    let held = match ledger.get(&htlc_account) {
        Some(escrow) => escrow,
        None => {
            return Err(LedgerError::RecordNotFound);
        },
    };
    proof {
        ledger.lemma_stored_escrow(htlc_account.bytes@);
    }
    let mut ctx = WithdrawToDestination { executor, htlc_account, htlc: held.record };
    match instructions::withdraw::withdraw_with_digest(&mut ctx, preimage, digest, now) {
        Ok((release, event)) => {
            ledger.complete(ctx.htlc);
            Ok((release, event))
        },
        Err(error) => Err(LedgerError::Rejected(error)),
    }
}

/// Withdraws from the escrow stored under `htlc_account` with a candidate
/// preimage.
///
/// Succeeds exactly when the escrow exists and is still open, the SHA-256
/// digest of the preimage is its hashlock, and the period that `now` falls
/// in admits the executor. On success the record is marked withdrawn, the
/// escrow's vault and balance are emptied, and no other escrow changes; the
/// result names the funds handed out and the notice to give. On failure the
/// ledger is unchanged.
pub fn withdraw_to_destination(
    ledger: &mut Ledger,
    executor: Pubkey,
    htlc_account: Pubkey,
    preimage: [u8; 32],
    now: i64,
) -> (result: Result<(Release, HTLCWithdrawn), LedgerError>)
    requires
        old(ledger).well_formed(),
    ensures
        final(ledger).well_formed(),
        match result {
            Ok((release, event)) => {
                let held = old(ledger)@[htlc_account.bytes@];
                &&& withdraw_failure(old(ledger)@, executor, htlc_account, sha256(preimage@), now)
                    is None
                &&& final(ledger)@ == old(ledger)@.insert(
                    htlc_account.bytes@,
                    Escrow::emptied(held.record.after_withdrawal()),
                )
                &&& release == withdraw_release(held.record, executor)
                &&& release.principal == held.vault
                &&& release.safety_deposit == held.balance
                &&& event == withdrawn_event(htlc_account, held.record, executor, preimage)
            },
            Err(error) => {
                &&& withdraw_failure(old(ledger)@, executor, htlc_account, sha256(preimage@), now)
                    == Some(error)
                &&& final(ledger)@ == old(ledger)@
            },
        },
{
    let digest = sha256_digest(&preimage);
    withdraw_with_digest(ledger, executor, htlc_account, preimage, digest, now)
}

/// Cancels the escrow stored under `htlc_account` and refunds its source.
///
/// Succeeds exactly when the escrow exists, `src_address` is its source, it
/// is still open, and `now` has reached its cancellation deadline; who the
/// executor is plays no part. On success the record is marked cancelled,
/// the escrow's vault and balance are emptied, and no other escrow changes;
/// the result names the funds handed out and the notice to give. On failure
/// the ledger is unchanged.
pub fn cancel(
    ledger: &mut Ledger,
    executor: Pubkey,
    htlc_account: Pubkey,
    src_address: Pubkey,
    now: i64,
) -> (result: Result<(Release, HTLCCancelled), LedgerError>)
    requires
        old(ledger).well_formed(),
    ensures
        final(ledger).well_formed(),
        match result {
            Ok((release, event)) => {
                let held = old(ledger)@[htlc_account.bytes@];
                &&& cancel_failure(old(ledger)@, htlc_account, src_address, now) is None
                &&& final(ledger)@ == old(ledger)@.insert(
                    htlc_account.bytes@,
                    Escrow::emptied(held.record.after_cancellation()),
                )
                &&& release == cancel_release(held.record, executor)
                &&& release.principal == held.vault
                &&& release.safety_deposit == held.balance
                &&& event == cancelled_event(htlc_account, executor)
            },
            Err(error) => {
                &&& cancel_failure(old(ledger)@, htlc_account, src_address, now) == Some(error)
                &&& final(ledger)@ == old(ledger)@
            },
        },
{
    let held = match ledger.get(&htlc_account) {
        Some(escrow) => escrow,
        None => {
            return Err(LedgerError::RecordNotFound);
        },
    };
    proof {
        ledger.lemma_stored_escrow(htlc_account.bytes@);
    }
    let mut ctx = Cancel { executor, htlc_account, htlc: held.record, src_address };
    match instructions::cancel::handler(&mut ctx, now) {
        Ok((release, event)) => {
            ledger.complete(ctx.htlc);
            Ok((release, event))
        },
        Err(error) => Err(LedgerError::Rejected(error)),
    }
}

} // verus!
