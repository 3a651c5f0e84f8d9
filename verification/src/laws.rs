//! What holds of the escrow whatever the inputs: each statement below is
//! proved from the definitions that the operations' contracts are written
//! in.

use vstd::prelude::*;
use crate::errors::HTLCError;
use crate::hashlock::opens;
use crate::instructions::cancel::{cancel_refusal, cancel_release};
use crate::instructions::create_htlc::{create_refusal, created_record};
use crate::instructions::withdraw::{window_admits, withdraw_refusal, withdraw_release};
use crate::instructions::CreateHTLCParams;
use crate::ledger::{record_address, Escrow, LedgerError};
use crate::pubkey::{all_zero, Pubkey};
use crate::state::{Phase, HTLC};
use crate::{cancel_failure, create_failure, withdraw_failure};

verus! {

/// One attempt to complete an escrow.
pub enum Attempt {
    /// A withdrawal by `executor` at time `now`, with a preimage whose hash
    /// is `digest`.
    Withdraw { digest: Seq<u8>, executor: Pubkey, now: i64 },
    /// A cancellation at time `now` that names `src_address` as the
    /// identity to refund.
    Cancel { src_address: Pubkey, now: i64 },
}

/// Why an attempt on a record is refused, if it is.
pub open spec fn refusal(htlc: HTLC, attempt: Attempt) -> Option<HTLCError> {
    match attempt {
        Attempt::Withdraw { digest, executor, now } => withdraw_refusal(htlc, digest, executor, now),
        Attempt::Cancel { src_address, now } => cancel_refusal(htlc, src_address, now),
    }
}

/// The record after an attempt: completed if the attempt succeeds, the
/// same if it is refused.
pub open spec fn step(htlc: HTLC, attempt: Attempt) -> HTLC {
    if refusal(htlc, attempt) is Some {
        htlc
    } else {
        match attempt {
            Attempt::Withdraw { .. } => htlc.after_withdrawal(),
            Attempt::Cancel { .. } => htlc.after_cancellation(),
        }
    }
}

/// The record after a series of attempts, made one after the other.
pub open spec fn run(htlc: HTLC, attempts: Seq<Attempt>) -> HTLC
    decreases attempts.len(),
{
    if attempts.len() == 0 {
        htlc
    } else {
        step(run(htlc, attempts.drop_last()), attempts.last())
    }
}

/// How many attempts of a series succeed.
pub open spec fn successes(htlc: HTLC, attempts: Seq<Attempt>) -> nat
    decreases attempts.len(),
{
    if attempts.len() == 0 {
        0
    } else {
        let earlier = successes(htlc, attempts.drop_last());
        if refusal(run(htlc, attempts.drop_last()), attempts.last()) is None {
            earlier + 1
        } else {
            earlier
        }
    }
}

/// What an operation never changes in a record: everything but the two
/// completion flags.
pub open spec fn same_terms(before: HTLC, after: HTLC) -> bool {
    after == (HTLC { withdrawn: after.withdrawn, cancelled: after.cancelled, ..before })
}

/// Parameters that pass validation give a record that is well formed and
/// open, with the resolver as the source to refund.
pub proof fn lemma_created_record_is_well_formed(
    resolver: Pubkey,
    token_mint: Pubkey,
    bump: u8,
    params: CreateHTLCParams,
    now: i64,
)
    requires
        create_refusal(params, token_mint) is None,
    ensures
        created_record(resolver, token_mint, bump, params, now).well_formed(),
        created_record(resolver, token_mint, bump, params, now).is_open(),
        created_record(resolver, token_mint, bump, params, now).src_address == resolver,
        created_record(resolver, token_mint, bump, params, now).htlc_id == params.htlc_id,
{
}

/// Timelocks that are not strictly increasing are never accepted: they are
/// rejected with `InvalidTimelockOrder` when nothing else is wrong with the
/// parameters, and with the error of an earlier rule otherwise. On a ledger
/// this holds whatever the ledger stores, a record under the same
/// identifier included.
pub proof fn lemma_malformed_timelocks_are_rejected(
    escrows: Map<Seq<u8>, Escrow>,
    params: CreateHTLCParams,
    token_mint: Pubkey,
)
    requires
        params.resolver_deadline <= params.finality_deadline || params.public_deadline
            <= params.resolver_deadline || params.cancellation_deadline <= params.public_deadline,
    ensures
        create_refusal(params, token_mint) is Some,
        create_failure(escrows, token_mint, params) is Some,
        create_failure(escrows, token_mint, params) != Some(LedgerError::RecordExists),
        ({
            &&& params.amount > 0
            &&& params.safety_deposit > 0
            &&& !token_mint.is_null()
            &&& !all_zero(params.dst_address@)
            &&& !all_zero(params.dst_token@)
        }) ==> {
            &&& create_refusal(params, token_mint) == Some(HTLCError::InvalidTimelockOrder)
            &&& create_failure(escrows, token_mint, params) == Some(
                LedgerError::Rejected(HTLCError::InvalidTimelockOrder),
            )
        },
{
}

/// Invalid parameters are rejected with their own error whatever the
/// ledger stores: what is stored decides only among valid parameters.
pub proof fn lemma_validation_comes_first(
    escrows: Map<Seq<u8>, Escrow>,
    params: CreateHTLCParams,
    token_mint: Pubkey,
    error: HTLCError,
)
    requires
        create_refusal(params, token_mint) == Some(error),
    ensures
        create_failure(escrows, token_mint, params) == Some(LedgerError::Rejected(error)),
{
}

/// Two identifiers that give the same record address are the same
/// identifier: no two escrows share an address.
pub proof fn lemma_record_address_is_injective(first: [u8; 32], second: [u8; 32])
    requires
        record_address(first).bytes@ == record_address(second).bytes@,
    ensures
        first == second,
{
    assert(first =~= second);
}

/// Creation succeeds exactly once for an identifier: with valid parameters
/// it succeeds on a ledger that holds no record under the identifier, and
/// on the ledger that results no creation with that identifier succeeds.
/// A second one fails with `RecordExists` when its parameters are valid,
/// and with the error of its parameters otherwise.
pub proof fn lemma_create_succeeds_once(
    escrows: Map<Seq<u8>, Escrow>,
    resolver: Pubkey,
    token_mint: Pubkey,
    params: CreateHTLCParams,
    now: i64,
    second_mint: Pubkey,
    second: CreateHTLCParams,
)
    requires
        create_refusal(params, token_mint) is None,
        !escrows.contains_key(params.htlc_id@),
        second.htlc_id == params.htlc_id,
    ensures
        create_failure(escrows, token_mint, params) is None,
        ({
            let created = escrows.insert(
                params.htlc_id@,
                Escrow::funded(created_record(resolver, token_mint, 0, params, now)),
            );
            &&& create_failure(created, second_mint, second) is Some
            &&& create_refusal(second, second_mint) is None ==> create_failure(
                created,
                second_mint,
                second,
            ) == Some(LedgerError::RecordExists)
            &&& create_refusal(second, second_mint) matches Some(error) ==> create_failure(
                created,
                second_mint,
                second,
            ) == Some(LedgerError::Rejected(error))
        }),
{
}

/// A withdrawal succeeds exactly when the escrow is open, the digest of
/// the preimage is the hashlock, and the period that `now` falls in admits
/// the executor.
pub proof fn lemma_withdraw_succeeds_iff(htlc: HTLC, digest: Seq<u8>, executor: Pubkey, now: i64)
    ensures
        withdraw_refusal(htlc, digest, executor, now) is None <==> {
            &&& htlc.is_open()
            &&& opens(htlc.hashlock, digest)
            &&& window_admits(htlc, executor, now)
        },
{
}

/// A preimage whose digest is not the hashlock never withdraws, whoever
/// presents it and whenever.
pub proof fn lemma_wrong_preimage_never_withdraws(
    htlc: HTLC,
    digest: Seq<u8>,
    executor: Pubkey,
    now: i64,
)
    requires
        digest != htlc.hashlock@,
    ensures
        withdraw_refusal(htlc, digest, executor, now) is Some,
        htlc.is_open() ==> withdraw_refusal(htlc, digest, executor, now) == Some(
            HTLCError::InvalidPreimage,
        ),
{
}

/// With the source of the escrow named as the refund target, a
/// cancellation succeeds exactly when the escrow is open and `now` has
/// reached the cancellation deadline. It then refunds exactly the
/// principal to the source and pays exactly the safety deposit to the
/// executor, whoever that is.
pub proof fn lemma_cancel_succeeds_iff(htlc: HTLC, executor: Pubkey, now: i64)
    ensures
        cancel_refusal(htlc, htlc.src_address, now) is None <==> (htlc.is_open() && now
            >= htlc.cancellation_deadline),
        cancel_release(htlc, executor).principal == htlc.amount,
        cancel_release(htlc, executor).principal_to == htlc.src_address,
        cancel_release(htlc, executor).safety_deposit == htlc.safety_deposit,
        cancel_release(htlc, executor).safety_deposit_to == executor,
{
}

/// A cancellation that names another refund target than the source of the
/// escrow is refused with `InvalidDestination`, whatever the state of the
/// escrow and the time.
pub proof fn lemma_cancel_needs_the_source(htlc: HTLC, src_address: Pubkey, now: i64)
    requires
        src_address != htlc.src_address,
    ensures
        cancel_refusal(htlc, src_address, now) == Some(HTLCError::InvalidDestination),
{
}

/// Each period starts at its deadline, inclusive: at the finality deadline
/// the resolver's exclusive period has begun, at the resolver deadline the
/// public period, and at the public deadline withdrawal has expired.
pub proof fn lemma_periods_start_at_their_deadlines(htlc: HTLC)
    requires
        htlc.well_formed(),
    ensures
        htlc.phase_at(htlc.finality_deadline) == Phase::ResolverExclusive,
        htlc.phase_at(htlc.resolver_deadline) == Phase::Public,
        htlc.phase_at(htlc.public_deadline) == Phase::Expired,
        htlc.phase_at(htlc.cancellation_deadline) == Phase::Expired,
        forall|t: i64| t < htlc.finality_deadline ==> htlc.phase_at(t) == Phase::Finality,
{
}

/// At the finality deadline exactly the resolver can withdraw from an open
/// escrow with the right preimage, and nobody else can; at the public
/// deadline exactly nobody can any more.
pub proof fn lemma_withdrawal_at_the_boundaries(htlc: HTLC, digest: Seq<u8>, executor: Pubkey)
    requires
        htlc.well_formed(),
        htlc.is_open(),
        opens(htlc.hashlock, digest),
    ensures
        withdraw_refusal(htlc, digest, htlc.resolver, htlc.finality_deadline) is None,
        executor != htlc.resolver ==> withdraw_refusal(
            htlc,
            digest,
            executor,
            htlc.finality_deadline,
        ) == Some(HTLCError::WithdrawalNotAllowed),
        withdraw_refusal(htlc, digest, executor, htlc.public_deadline) == Some(
            HTLCError::WithdrawalNotAllowed,
        ),
{
}

/// While withdrawal is possible cancellation is not, and once cancellation
/// is possible withdrawal is not: the two windows of a well-formed escrow
/// never overlap.
pub proof fn lemma_windows_are_disjoint(
    htlc: HTLC,
    digest: Seq<u8>,
    executor: Pubkey,
    src_address: Pubkey,
    now: i64,
)
    requires
        htlc.well_formed(),
    ensures
        !(withdraw_refusal(htlc, digest, executor, now) is None && cancel_refusal(
            htlc,
            src_address,
            now,
        ) is None),
{
}

/// Completing an escrow changes one flag and nothing else, and leaves the
/// record well formed: amounts and timelocks stay what they were at
/// creation, and never are both flags set.
pub proof fn lemma_completion_keeps_the_terms(htlc: HTLC)
    requires
        htlc.well_formed(),
        htlc.is_open(),
    ensures
        same_terms(htlc, htlc.after_withdrawal()),
        same_terms(htlc, htlc.after_cancellation()),
        htlc.after_withdrawal().well_formed(),
        htlc.after_cancellation().well_formed(),
        htlc.after_withdrawal().withdrawn && !htlc.after_withdrawal().cancelled,
        htlc.after_cancellation().cancelled && !htlc.after_cancellation().withdrawn,
{
}

/// A completed escrow refuses every further attempt: a withdrawn one with
/// `AlreadyWithdrawn`, a cancelled one with `AlreadyCancelled`. The one
/// exception is a cancellation that names another refund target than the
/// source, which is refused with `InvalidDestination` before the flags are
/// looked at.
pub proof fn lemma_completed_escrow_refuses(htlc: HTLC, attempt: Attempt)
    requires
        htlc.well_formed(),
        !htlc.is_open(),
    ensures
        refusal(htlc, attempt) is Some,
        step(htlc, attempt) == htlc,
        (attempt matches Attempt::Cancel { src_address, .. } && src_address != htlc.src_address)
            ==> refusal(htlc, attempt) == Some(HTLCError::InvalidDestination),
        !(attempt matches Attempt::Cancel { src_address, .. } && src_address != htlc.src_address)
            ==> refusal(htlc, attempt) == Some(
            if htlc.withdrawn {
                HTLCError::AlreadyWithdrawn
            } else {
                HTLCError::AlreadyCancelled
            },
        ),
{
}

/// Whatever attempts are made on a record, in whatever order, its terms
/// stay the same, it stays well formed, and its flags are never cleared.
pub proof fn lemma_run_keeps_the_terms(htlc: HTLC, attempts: Seq<Attempt>)
    requires
        htlc.well_formed(),
    ensures
        same_terms(htlc, run(htlc, attempts)),
        run(htlc, attempts).well_formed(),
        htlc.withdrawn ==> run(htlc, attempts).withdrawn,
        htlc.cancelled ==> run(htlc, attempts).cancelled,
    decreases attempts.len(),
{
    if attempts.len() > 0 {
        lemma_run_keeps_the_terms(htlc, attempts.drop_last());
    }
}

/// Of any series of attempts on a record at most one succeeds, and none
/// does once the record is completed: the escrow is completed at most once,
/// by a withdrawal or by a cancellation, never by both.
pub proof fn lemma_at_most_one_completion(htlc: HTLC, attempts: Seq<Attempt>)
    requires
        htlc.well_formed(),
    ensures
        successes(htlc, attempts) <= 1,
        !htlc.is_open() ==> successes(htlc, attempts) == 0 && run(htlc, attempts) == htlc,
        successes(htlc, attempts) == 1 ==> !run(htlc, attempts).is_open(),
        successes(htlc, attempts) == 0 ==> run(htlc, attempts) == htlc,
    decreases attempts.len(),
{
    if attempts.len() > 0 {
        lemma_at_most_one_completion(htlc, attempts.drop_last());
        lemma_run_keeps_the_terms(htlc, attempts.drop_last());
    }
}

/// After a successful withdrawal every later attempt fails, however many
/// are made: a withdrawal with `AlreadyWithdrawn`, and so does a
/// cancellation that names the source as the refund target.
pub proof fn lemma_after_withdrawal(
    htlc: HTLC,
    digest: Seq<u8>,
    executor: Pubkey,
    now: i64,
    retries: Seq<Attempt>,
    next: Attempt,
)
    requires
        htlc.well_formed(),
        withdraw_refusal(htlc, digest, executor, now) is None,
    ensures
        run(htlc.after_withdrawal(), retries) == htlc.after_withdrawal(),
        refusal(run(htlc.after_withdrawal(), retries), next) is Some,
        !(next matches Attempt::Cancel { src_address, .. } && src_address != htlc.src_address)
            ==> refusal(run(htlc.after_withdrawal(), retries), next) == Some(
            HTLCError::AlreadyWithdrawn,
        ),
{
    lemma_at_most_one_completion(htlc.after_withdrawal(), retries);
}

/// After a successful cancellation every later attempt fails, however many
/// are made: a withdrawal with `AlreadyCancelled`, and so does a
/// cancellation that names the source as the refund target.
pub proof fn lemma_after_cancellation(
    htlc: HTLC,
    src_address: Pubkey,
    now: i64,
    retries: Seq<Attempt>,
    next: Attempt,
)
    requires
        htlc.well_formed(),
        cancel_refusal(htlc, src_address, now) is None,
    ensures
        run(htlc.after_cancellation(), retries) == htlc.after_cancellation(),
        refusal(run(htlc.after_cancellation(), retries), next) is Some,
        !(next matches Attempt::Cancel { src_address, .. } && src_address != htlc.src_address)
            ==> refusal(run(htlc.after_cancellation(), retries), next) == Some(
            HTLCError::AlreadyCancelled,
        ),
{
    lemma_at_most_one_completion(htlc.after_cancellation(), retries);
}

/// On the ledger too a completed escrow stays completed: after a
/// successful withdrawal every later withdrawal from that address fails
/// with `AlreadyWithdrawn`, and so does every cancellation that names the
/// source as the refund target; after a successful cancellation the same
/// holds with `AlreadyCancelled`.
pub proof fn lemma_completed_on_the_ledger(
    escrows: Map<Seq<u8>, Escrow>,
    htlc_account: Pubkey,
    first: Attempt,
    executor: Pubkey,
    digest: Seq<u8>,
    now: i64,
)
    requires
        escrows.contains_key(htlc_account.bytes@),
        refusal(escrows[htlc_account.bytes@].record, first) is None,
    ensures
        ({
            let record = escrows[htlc_account.bytes@].record;
            let after = escrows.insert(
                htlc_account.bytes@,
                Escrow::emptied(step(record, first)),
            );
            let error = if first is Withdraw {
                HTLCError::AlreadyWithdrawn
            } else {
                HTLCError::AlreadyCancelled
            };
            &&& withdraw_failure(after, executor, htlc_account, digest, now) == Some(
                LedgerError::Rejected(error),
            )
            &&& cancel_failure(after, htlc_account, record.src_address, now) == Some(
                LedgerError::Rejected(error),
            )
        }),
{
}

/// Creating an escrow with principal A and safety deposit D and then
/// withdrawing from it lowers the vault by exactly A and the record's
/// balance by exactly D; the funds handed out are exactly A and D; and
/// every other escrow on the ledger is what it was before the creation.
pub proof fn lemma_create_then_withdraw(
    escrows: Map<Seq<u8>, Escrow>,
    resolver: Pubkey,
    token_mint: Pubkey,
    params: CreateHTLCParams,
    created_at: i64,
    executor: Pubkey,
    digest: Seq<u8>,
    now: i64,
)
    requires
        create_failure(escrows, token_mint, params) is None,
        withdraw_failure(
            escrows.insert(
                params.htlc_id@,
                Escrow::funded(created_record(resolver, token_mint, 0, params, created_at)),
            ),
            executor,
            record_address(params.htlc_id),
            digest,
            now,
        ) is None,
    ensures
        ({
            let record = created_record(resolver, token_mint, 0, params, created_at);
            let created = escrows.insert(params.htlc_id@, Escrow::funded(record));
            let withdrawn = created.insert(
                params.htlc_id@,
                Escrow::emptied(record.after_withdrawal()),
            );
            &&& created[params.htlc_id@].vault - withdrawn[params.htlc_id@].vault == params.amount
            &&& created[params.htlc_id@].balance - withdrawn[params.htlc_id@].balance
                == params.safety_deposit
            &&& withdraw_release(record, executor).principal == params.amount
            &&& withdraw_release(record, executor).safety_deposit == params.safety_deposit
            &&& withdrawn.remove(params.htlc_id@) == escrows
        }),
{
    let record = created_record(resolver, token_mint, 0, params, created_at);
    let created = escrows.insert(params.htlc_id@, Escrow::funded(record));
    let withdrawn = created.insert(params.htlc_id@, Escrow::emptied(record.after_withdrawal()));
    assert(withdrawn.remove(params.htlc_id@) =~= escrows);
}

/// Creating an escrow and then cancelling it lowers the vault by exactly
/// the principal and the record's balance by exactly the safety deposit;
/// the principal goes back to the resolver, who is the source; and every
/// other escrow on the ledger is what it was before the creation.
pub proof fn lemma_create_then_cancel(
    escrows: Map<Seq<u8>, Escrow>,
    resolver: Pubkey,
    token_mint: Pubkey,
    params: CreateHTLCParams,
    created_at: i64,
    executor: Pubkey,
    now: i64,
)
    requires
        create_failure(escrows, token_mint, params) is None,
        cancel_failure(
            escrows.insert(
                params.htlc_id@,
                Escrow::funded(created_record(resolver, token_mint, 0, params, created_at)),
            ),
            record_address(params.htlc_id),
            resolver,
            now,
        ) is None,
    ensures
        ({
            let record = created_record(resolver, token_mint, 0, params, created_at);
            let created = escrows.insert(params.htlc_id@, Escrow::funded(record));
            let cancelled = created.insert(
                params.htlc_id@,
                Escrow::emptied(record.after_cancellation()),
            );
            &&& created[params.htlc_id@].vault - cancelled[params.htlc_id@].vault == params.amount
            &&& created[params.htlc_id@].balance - cancelled[params.htlc_id@].balance
                == params.safety_deposit
            &&& cancel_release(record, executor).principal == params.amount
            &&& cancel_release(record, executor).principal_to == resolver
            &&& cancel_release(record, executor).safety_deposit == params.safety_deposit
            &&& cancel_release(record, executor).safety_deposit_to == executor
            &&& cancelled.remove(params.htlc_id@) == escrows
        }),
{
    let record = created_record(resolver, token_mint, 0, params, created_at);
    let created = escrows.insert(params.htlc_id@, Escrow::funded(record));
    let cancelled = created.insert(params.htlc_id@, Escrow::emptied(record.after_cancellation()));
    assert(cancelled.remove(params.htlc_id@) =~= escrows);
}

} // verus!
