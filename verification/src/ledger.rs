use vstd::prelude::*;
use crate::errors::HTLCError;
use crate::pubkey::{bytes_equal, Pubkey};
use crate::state::HTLC;

verus! {

/// The address under which the record of a swap is stored: the bytes of
/// its identifier, and nothing else.
pub open spec fn record_address(htlc_id: [u8; 32]) -> Pubkey {
    Pubkey { bytes: htlc_id }
}

/// The address under which the record of the swap `htlc_id` is stored.
pub fn address_of(htlc_id: &[u8; 32]) -> (address: Pubkey)
    ensures
        address == record_address(*htlc_id),
{
    Pubkey { bytes: *htlc_id }
}

/// An escrow in custody: the record together with the funds it controls.
#[derive(Clone, Copy, Debug, PartialEq, Eq)]
pub struct Escrow {
    /// The escrow record.
    pub record: HTLC,
    /// Tokens held in the escrow's vault.
    pub vault: u64,
    /// Native currency held in the record's own balance.
    pub balance: u64,
}

impl Escrow {
    /// The record is well formed, and the escrow holds exactly its
    /// principal and its safety deposit while it is open, and nothing once
    /// it has been completed.
    pub open spec fn in_custody(self) -> bool {
        &&& self.record.well_formed()
        &&& self.vault == (if self.record.is_open() {
            self.record.amount
        } else {
            0
        })
        &&& self.balance == (if self.record.is_open() {
            self.record.safety_deposit
        } else {
            0
        })
    }

    /// The escrow that holds the funds of a newly created record.
    pub open spec fn funded(record: HTLC) -> Escrow {
        Escrow { record, vault: record.amount, balance: record.safety_deposit }
    }

    /// The escrow of a completed record, with its funds handed out.
    pub open spec fn emptied(record: HTLC) -> Escrow {
        Escrow { record, vault: 0, balance: 0 }
    }
}

/// Reasons for which an operation on the ledger fails.
#[derive(Clone, Copy, Debug, PartialEq, Eq, Structural)]
pub enum LedgerError {
    /// The escrow's own rules reject the operation.
    Rejected(HTLCError),
    /// A record is already stored under the identifier.
    RecordExists,
    /// No record is stored under the address.
    RecordNotFound,
}

/// The record store: every escrow under the address that its identifier
/// gives it, with the funds it holds.
pub struct Ledger {
    escrows: Vec<Escrow>,
}

impl View for Ledger {
    type V = Map<Seq<u8>, Escrow>;

    /// The escrows by the bytes of their address.
    closed spec fn view(&self) -> Map<Seq<u8>, Escrow> {
        Map::new(
            |key: Seq<u8>| self.holds(key),
            |key: Seq<u8>| self.escrows@[self.slot(key)],
        )
    }
}

impl Ledger {
    spec fn key_at(self, i: int) -> Seq<u8> {
        self.escrows@[i].record.htlc_id@
    }

    spec fn holds(self, key: Seq<u8>) -> bool {
        exists|i: int| 0 <= i < self.escrows@.len() && #[trigger] self.key_at(i) == key
    }

    spec fn slot(self, key: Seq<u8>) -> int {
        choose|i: int| 0 <= i < self.escrows@.len() && #[trigger] self.key_at(i) == key
    }

    /// No two escrows share an address, each is stored under the address
    /// of its own identifier, and each is in custody.
    pub closed spec fn well_formed(self) -> bool {
        &&& forall|i: int, j: int|
            0 <= i < j < self.escrows@.len() ==> #[trigger] self.key_at(i) != #[trigger] self.key_at(
                j,
            )
        &&& forall|i: int| 0 <= i < self.escrows@.len() ==> (#[trigger] self.escrows@[i]).in_custody()
    }

    proof fn lemma_slot(self, i: int)
        requires
            self.well_formed(),
            0 <= i < self.escrows@.len(),
        ensures
            self.holds(self.key_at(i)),
            self.slot(self.key_at(i)) == i,
            self@.contains_key(self.key_at(i)),
            self@[self.key_at(i)] == self.escrows@[i],
    {
        let key = self.key_at(i);
        assert(self.holds(key));
        let j = self.slot(key);
        assert(0 <= j < self.escrows@.len() && self.key_at(j) == key);
        if j < i {
            assert(self.key_at(j) != self.key_at(i));
        } else if i < j {
            assert(self.key_at(i) != self.key_at(j));
        }
    }

    /// In a well-formed ledger every escrow is in custody and is stored
    /// under the address of its own identifier.
    pub proof fn lemma_stored_escrow(self, key: Seq<u8>)
        requires
            self.well_formed(),
            self@.contains_key(key),
        ensures
            self@[key].in_custody(),
            self@[key].record.htlc_id@ == key,
    {
        let i = self.slot(key);
        assert(self.holds(key));
        assert(self.escrows@[i].in_custody());
    }

    /// An empty ledger.
    pub fn new() -> (ledger: Ledger)
        ensures
            ledger.well_formed(),
            ledger@ == Map::<Seq<u8>, Escrow>::empty(),
    {
        let ledger = Ledger { escrows: Vec::new() };
        assert(ledger@ =~= Map::<Seq<u8>, Escrow>::empty());
        ledger
    }

    fn position(&self, key: &[u8; 32]) -> (found: Option<usize>)
        requires
            self.well_formed(),
        ensures
            match found {
                Some(i) => i < self.escrows@.len() && self.key_at(i as int) == key@,
                None => !self@.contains_key(key@),
            },
    {
        let mut i: usize = 0;
        while i < self.escrows.len()
            invariant
                i <= self.escrows@.len(),
                forall|j: int| 0 <= j < i ==> #[trigger] self.key_at(j) != key@,
            decreases self.escrows@.len() - i,
        {
            if bytes_equal(&self.escrows[i].record.htlc_id, key) {
                return Some(i);
            }
            i += 1;
        }
        None
    }

    /// The escrow stored under `address`, if there is one.
    pub fn get(&self, address: &Pubkey) -> (found: Option<Escrow>)
        requires
            self.well_formed(),
        ensures
            match found {
                Some(escrow) => self@.contains_key(address.bytes@) && escrow == self@[address.bytes@],
                None => !self@.contains_key(address.bytes@),
            },
    {
        match self.position(&address.bytes) {
            Some(i) => {
                proof {
                    self.lemma_slot(i as int);
                }
                Some(self.escrows[i])
            },
            None => None,
        }
    }

    /// Tells whether an escrow is stored under `address`.
    pub fn contains(&self, address: &Pubkey) -> (present: bool)
        requires
            self.well_formed(),
        ensures
            present == self@.contains_key(address.bytes@),
    {
        self.position(&address.bytes).is_some()
    }

    /// Stores a newly created escrow with its funds, under an address that
    /// holds none yet.
    pub(crate) fn open(&mut self, record: HTLC)
        requires
            old(self).well_formed(),
            record.well_formed(),
            record.is_open(),
            !old(self)@.contains_key(record.htlc_id@),
        ensures
            final(self).well_formed(),
            final(self)@ == old(self)@.insert(record.htlc_id@, Escrow::funded(record)),
    {
        let escrow = Escrow { record, vault: record.amount, balance: record.safety_deposit };
        self.escrows.push(escrow);
        proof {
            let before = *old(self);
            let after = *self;
            let last = before.escrows@.len() as int;
            assert(after.escrows@ == before.escrows@.push(escrow));
            assert forall|i: int| 0 <= i < last implies #[trigger] after.key_at(i) != record.htlc_id@ by {
                assert(after.key_at(i) == before.key_at(i));
                before.lemma_slot(i);
            }
            assert forall|i: int, j: int| 0 <= i < j < after.escrows@.len() implies #[trigger] after.key_at(
                i,
            ) != #[trigger] after.key_at(j) by {
                assert(after.key_at(i) == before.key_at(i));
                if j < last {
                    assert(after.key_at(j) == before.key_at(j));
                }
            }
            assert(after.well_formed());
            assert forall|key: Seq<u8>|
                after@.contains_key(key) <==> (key == record.htlc_id@ || before@.contains_key(
                    key,
                )) by {
                if after.holds(key) {
                    let i = after.slot(key);
                    if i < last {
                        assert(before.key_at(i) == key);
                    }
                }
                if before.holds(key) {
                    let i = before.slot(key);
                    assert(after.key_at(i) == key);
                }
                assert(after.key_at(last) == record.htlc_id@);
            }
            assert forall|key: Seq<u8>| #[trigger] after@.contains_key(key) implies after@[key]
                == before@.insert(record.htlc_id@, escrow)[key] by {
                let i = after.slot(key);
                after.lemma_slot(i);
                if i < last {
                    assert(before.key_at(i) == key);
                    before.lemma_slot(i);
                }
            }
            assert(after@ =~= before@.insert(record.htlc_id@, escrow));
        }
    }

    /// Replaces the record of an open escrow by its completed form and
    /// hands out the funds it held.
    pub(crate) fn complete(&mut self, record: HTLC)
        requires
            old(self).well_formed(),
            old(self)@.contains_key(record.htlc_id@),
            old(self)@[record.htlc_id@].record.is_open(),
            record == old(self)@[record.htlc_id@].record.after_withdrawal() || record == old(
                self,
            )@[record.htlc_id@].record.after_cancellation(),
        ensures
            final(self).well_formed(),
            final(self)@ == old(self)@.insert(record.htlc_id@, Escrow::emptied(record)),
    {
        proof {
            self.lemma_stored_escrow(record.htlc_id@);
        }
        let escrow = Escrow { record, vault: 0, balance: 0 };
        let found = self.position(&record.htlc_id);
        let i = found.unwrap();
        self.escrows.set(i, escrow);
        proof {
            let before = *old(self);
            let after = *self;
            assert(after.escrows@ == before.escrows@.update(i as int, escrow));
            assert forall|j: int| 0 <= j < after.escrows@.len() implies #[trigger] after.key_at(j)
                == before.key_at(j) by {}
            assert(after.well_formed());
            assert forall|key: Seq<u8>| after@.contains_key(key) <==> before@.contains_key(key) by {
                if after.holds(key) {
                    let j = after.slot(key);
                    assert(before.key_at(j) == key);
                }
                if before.holds(key) {
                    let j = before.slot(key);
                    assert(after.key_at(j) == key);
                }
            }
            assert forall|key: Seq<u8>| #[trigger] after@.contains_key(key) implies after@[key]
                == before@.insert(record.htlc_id@, escrow)[key] by {
                let j = after.slot(key);
                after.lemma_slot(j);
                assert(before.key_at(j) == key);
                before.lemma_slot(j);
            }
            before.lemma_slot(i as int);
            assert(after@ =~= before@.insert(record.htlc_id@, escrow));
        }
    }
}

} // verus!
