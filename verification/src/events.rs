use vstd::prelude::*;
use crate::pubkey::Pubkey;

verus! {

/// Notice that an escrow has been created.
#[derive(Clone, Copy, Debug, PartialEq, Eq)]
pub struct HTLCCreated {
    /// Address of the escrow record.
    pub htlc_account: Pubkey,
    /// Cross-chain identifier of the swap.
    pub htlc_id: [u8; 32],
    /// Who opened the escrow.
    pub resolver: Pubkey,
    /// Recipient on the counterpart chain.
    pub dst_address: [u8; 20],
    /// Principal that was locked.
    pub amount: u64,
    /// Digest that the preimage must hash to.
    pub hashlock: [u8; 32],
    /// Time at which the finality period ends.
    pub finality_deadline: i64,
}

/// Notice that the principal of an escrow has been withdrawn.
#[derive(Clone, Copy, Debug, PartialEq, Eq)]
pub struct HTLCWithdrawn {
    /// Address of the escrow record.
    pub htlc_account: Pubkey,
    /// The preimage that unlocked the escrow.
    pub preimage: [u8; 32],
    /// Who carried out the withdrawal.
    pub executor: Pubkey,
    /// Recipient on the counterpart chain, as recorded at creation.
    pub destination: [u8; 20],
}

/// Notice that an escrow has been cancelled.
#[derive(Clone, Copy, Debug, PartialEq, Eq)]
pub struct HTLCCancelled {
    /// Address of the escrow record.
    pub htlc_account: Pubkey,
    /// Who carried out the cancellation.
    pub executor: Pubkey,
}

} // verus!
