use vstd::prelude::*;
use crate::pubkey::Pubkey;

verus! {

/// Funds that creating an escrow takes from the resolver: the principal
/// goes into the escrow's vault, the safety deposit into the record's own
/// balance.
#[derive(Clone, Copy, Debug, PartialEq, Eq)]
pub struct Lock {
    /// Who supplies both amounts.
    pub payer: Pubkey,
    /// Token that the principal is held in.
    pub token: Pubkey,
    /// Tokens moved from the payer into the vault.
    pub principal: u64,
    /// Native currency moved from the payer into the record's balance.
    pub safety_deposit: u64,
}

/// Funds that completing an escrow hands out: the principal leaves the
/// vault, the safety deposit leaves the record's own balance.
#[derive(Clone, Copy, Debug, PartialEq, Eq)]
pub struct Release {
    /// Token that the principal is held in.
    pub token: Pubkey,
    /// Tokens moved out of the vault.
    pub principal: u64,
    /// Whose token holdings receive the principal.
    pub principal_to: Pubkey,
    /// Native currency moved out of the record's balance.
    pub safety_deposit: u64,
    /// Who receives the safety deposit.
    pub safety_deposit_to: Pubkey,
}

} // verus!
