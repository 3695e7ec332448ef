use vstd::prelude::*;

use crate::address::{address_eq, Address};
use crate::client_state::VrfClientState;

verus! {

/// One allocated record of the ledger: a derived address and the client
/// state stored at it.
#[derive(Clone, Copy)]
pub struct LedgerEntry {
    pub address: Address,
    pub state: VrfClientState,
}

/// The account that funds an allocation.
#[derive(Clone, Copy)]
pub struct Payer {
    pub balance: u64,
}

/// Why the ledger's allocation primitive refused a request.
#[derive(Clone, Copy, Debug, PartialEq, Eq, Structural)]
pub enum AllocError {
    /// The address is already allocated: at most one writer ever succeeds
    /// for a given address.
    Duplicate,
    /// The payer's balance does not cover the allocation cost.
    Funding,
}

/// The record stored at an address, if any: the most recently allocated
/// record under that address. With unique addresses, the partial map that
/// the entry sequence denotes.
pub open spec fn stored_at(entries: Seq<LedgerEntry>, address: Seq<u8>) -> Option<VrfClientState>
    decreases entries.len(),
{
    if entries.len() == 0 {
        None
    } else if entries.last().address@ == address {
        Some(entries.last().state)
    } else {
        stored_at(entries.drop_last(), address)
    }
}

/// Every allocated record is one that initialization leaves behind: its
/// persisted bound is in the policy range and its fulfillment fields are
/// untouched.
pub open spec fn all_records_wf(entries: Seq<LedgerEntry>) -> bool {
    forall|i: int| 0 <= i < entries.len() ==> (#[trigger] entries[i]).state.wf()
}

/// The ledger: an append-only store of allocated records, where allocation
/// is exclusive per address and paid for by a payer.
pub struct Ledger {
    pub entries: Vec<LedgerEntry>,
}

impl Ledger {
    /// An empty ledger: nothing is stored at any address.
    pub fn new() -> (r: Ledger)
        ensures
            forall|a: Seq<u8>| stored_at(r.entries@, a) is None,
    {
        Ledger { entries: Vec::new() }
    }

    /// Read the record stored at an address, if one exists.
    pub fn get(&self, address: &Address) -> (r: Option<&VrfClientState>)
        ensures
            (match r {
                Some(s) => Some(*s),
                None => None::<VrfClientState>,
            }) == stored_at(self.entries@, address@),
    {
        let n: usize = self.entries.len();
        let mut i: usize = n;
        proof {
            assert(self.entries@.take(n as int) =~= self.entries@);
        }
        while i > 0
            invariant
                i <= n,
                n == self.entries@.len(),
                stored_at(self.entries@, address@) == stored_at(
                    self.entries@.take(i as int),
                    address@,
                ),
            decreases i,
        {
            let entry = &self.entries[i - 1];
            proof {
                assert(self.entries@.take(i as int).last() == self.entries@[i - 1]);
                assert(self.entries@.take(i as int).drop_last() =~= self.entries@.take(
                    i - 1,
                ));
            }
            if address_eq(&entry.address, address) {
                return Some(&self.entries[i - 1].state);
            }
            i = i - 1;
        }
        proof {
            assert(self.entries@.take(0) =~= Seq::<LedgerEntry>::empty());
        }
        None
    }

    /// The ledger's account-creation primitive: insert-if-absent, funded by
    /// the payer. Exactly one allocation can ever succeed for a given
    /// address; a refused request changes nothing, neither ledger nor payer.
    pub fn allocate(
        &mut self,
        address: &Address,
        state: VrfClientState,
        size: u64,
        payer: &mut Payer,
    ) -> (r: Result<(), AllocError>)
        ensures
            r is Ok <==> (stored_at(old(self).entries@, address@) is None && old(
                payer,
            ).balance >= size),
            r == Err::<(), AllocError>(AllocError::Duplicate) <==> stored_at(
                old(self).entries@,
                address@,
            ) is Some,
            r == Err::<(), AllocError>(AllocError::Funding) <==> (stored_at(
                old(self).entries@,
                address@,
            ) is None && old(payer).balance < size),
            r is Ok ==> {
                &&& final(self).entries@ == old(self).entries@.push(
                    LedgerEntry { address: *address, state },
                )
                &&& stored_at(final(self).entries@, address@) == Some(state)
                &&& forall|a: Seq<u8>|
                    a != address@ ==> stored_at(final(self).entries@, a) == stored_at(
                        old(self).entries@,
                        a,
                    )
                &&& final(payer).balance == old(payer).balance - size
            },
            r is Err ==> *final(self) == *old(self) && *final(payer) == *old(payer),
    {
        if self.get(address).is_some() {
            return Err(AllocError::Duplicate);
        }
        if payer.balance < size {
            return Err(AllocError::Funding);
        }
        payer.balance = payer.balance - size;
        self.entries.push(LedgerEntry { address: *address, state });
        proof {
            let pushed = old(self).entries@.push(LedgerEntry { address: *address, state });
            assert(pushed.drop_last() =~= old(self).entries@);
            assert(forall|a: Seq<u8>|
                a != address@ ==> stored_at(pushed, a) == stored_at(old(self).entries@, a));
        }
        Ok(())
    }
}

} // verus!
