use vstd::prelude::*;
use crate::pubkey::{all_zero, Pubkey};

verus! {

/// The four consecutive periods of an escrow's life, told apart by its
/// timelocks. Each period starts at its deadline, inclusive.
#[derive(Clone, Copy, Debug, PartialEq, Eq, Structural)]
pub enum Phase {
    /// Before the finality deadline: nobody may withdraw.
    Finality,
    /// From the finality deadline up to the resolver deadline: only the
    /// resolver may withdraw.
    ResolverExclusive,
    /// From the resolver deadline up to the public deadline: anyone who
    /// holds the preimage may withdraw.
    Public,
    /// From the public deadline on: nobody may withdraw any more.
    Expired,
}

/// The four timelocks of an escrow are strictly increasing.
pub open spec fn timelocks_ordered(
    finality_deadline: i64,
    resolver_deadline: i64,
    public_deadline: i64,
    cancellation_deadline: i64,
) -> bool {
    finality_deadline < resolver_deadline && resolver_deadline < public_deadline
        && public_deadline < cancellation_deadline
}

/// The escrow record: one per swap, found by its `htlc_id`.
#[derive(Clone, Copy, Debug, PartialEq, Eq)]
pub struct HTLC {
    /// Who opened the escrow; sole withdrawer during the resolver's period.
    pub resolver: Pubkey,
    /// Who is refunded on cancellation.
    pub src_address: Pubkey,
    /// Recipient on the counterpart chain (20 bytes); kept for observers.
    pub dst_address: [u8; 20],
    /// Token locked on this side.
    pub src_token: Pubkey,
    /// Token on the counterpart chain (20 bytes); kept for observers.
    pub dst_token: [u8; 20],
    /// Principal, in the token's smallest unit.
    pub amount: u64,
    /// Incentive in native currency for whoever completes the escrow.
    pub safety_deposit: u64,
    /// Digest that the preimage must hash to.
    pub hashlock: [u8; 32],
    /// Cross-chain identifier of the swap.
    pub htlc_id: [u8; 32],
    /// Time at which the finality period ends.
    pub finality_deadline: i64,
    /// Time at which the resolver's exclusive period ends.
    pub resolver_deadline: i64,
    /// Time at which the public withdrawal period ends.
    pub public_deadline: i64,
    /// Time from which cancellation is allowed.
    pub cancellation_deadline: i64,
    /// The principal has been withdrawn.
    pub withdrawn: bool,
    /// The escrow has been cancelled.
    pub cancelled: bool,
    /// Time at which the escrow was created.
    pub created_at: i64,
    /// Bump seed of the record's address.
    pub bump: u8,
}

impl HTLC {
    /// Bytes that a stored record takes, its 8-byte tag included.
    pub const SIZE: usize = 8 + 32 + 32 + 20 + 32 + 20 + 8 + 8 + 32 + 32 + 8 + 8 + 8 + 8 + 1 + 1
        + 8 + 1;

    /// Neither withdrawn nor cancelled: the escrow still holds its funds.
    pub open spec fn is_open(self) -> bool {
        !self.withdrawn && !self.cancelled
    }

    /// What holds of a record from its creation on: positive principal and
    /// deposit, strictly increasing timelocks, and at most one completion
    /// flag set.
    pub open spec fn well_formed(self) -> bool {
        &&& self.amount > 0
        &&& self.safety_deposit > 0
        &&& timelocks_ordered(
            self.finality_deadline,
            self.resolver_deadline,
            self.public_deadline,
            self.cancellation_deadline,
        )
        &&& !(self.withdrawn && self.cancelled)
    }

    /// The period that time `t` falls in.
    pub open spec fn phase_at(self, t: i64) -> Phase {
        if t < self.finality_deadline {
            Phase::Finality
        } else if t < self.resolver_deadline {
            Phase::ResolverExclusive
        } else if t < self.public_deadline {
            Phase::Public
        } else {
            Phase::Expired
        }
    }

    /// The period that time `now` falls in.
    pub fn phase(&self, now: i64) -> (phase: Phase)
        ensures
            phase == self.phase_at(now),
    {
        if now < self.finality_deadline {
            Phase::Finality
        } else if now < self.resolver_deadline {
            Phase::ResolverExclusive
        } else if now < self.public_deadline {
            Phase::Public
        } else {
            Phase::Expired
        }
    }

    /// A record that has not been filled in: null identities, zero bytes,
    /// zero amounts and times, and both completion flags clear.
    pub open spec fn is_blank(self) -> bool {
        &&& self.resolver.is_null()
        &&& self.src_address.is_null()
        &&& all_zero(self.dst_address@)
        &&& self.src_token.is_null()
        &&& all_zero(self.dst_token@)
        &&& self.amount == 0
        &&& self.safety_deposit == 0
        &&& all_zero(self.hashlock@)
        &&& all_zero(self.htlc_id@)
        &&& self.finality_deadline == 0
        &&& self.resolver_deadline == 0
        &&& self.public_deadline == 0
        &&& self.cancellation_deadline == 0
        &&& !self.withdrawn
        &&& !self.cancelled
        &&& self.created_at == 0
        &&& self.bump == 0
    }

    /// This record once the principal has been withdrawn.
    pub open spec fn after_withdrawal(self) -> HTLC {
        HTLC { withdrawn: true, ..self }
    }

    /// This record once it has been cancelled.
    pub open spec fn after_cancellation(self) -> HTLC {
        HTLC { cancelled: true, ..self }
    }
}

impl Default for HTLC {
    /// A record that has not been filled in yet.
    fn default() -> (record: HTLC)
        ensures
            record.is_blank(),
    {
        HTLC {
            resolver: Pubkey::default(),
            src_address: Pubkey::default(),
            dst_address: [0u8; 20],
            src_token: Pubkey::default(),
            dst_token: [0u8; 20],
            amount: 0,
            safety_deposit: 0,
            hashlock: [0u8; 32],
            htlc_id: [0u8; 32],
            finality_deadline: 0,
            resolver_deadline: 0,
            public_deadline: 0,
            cancellation_deadline: 0,
            withdrawn: false,
            cancelled: false,
            created_at: 0,
            bump: 0,
        }
    }
}

} // verus!
