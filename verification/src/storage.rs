use vstd::prelude::*;
use crate::caller::SubqueryCaller;
use crate::hilo::HiLo;
use crate::subquery::{StorageSubquery, Subquery};

verus! {

/// A storage query in the making: the block number and account address it
/// will ask about. The single terminal call consumes the builder.
pub struct Storage {
    pub block_number: u64,
    pub addr: u64,
}

/// Starts a storage query for the given block number and account address.
pub fn get_storage(block_number: u64, addr: u64) -> (r: Storage)
    ensures
        r == (Storage { block_number, addr }),
{
    Storage { block_number, addr }
}

/// The record a slot lookup submits: block number, address and the slot value
/// exactly as given, with no offset transformation.
pub open spec fn slot_record(s: Storage, slot: HiLo) -> StorageSubquery {
    StorageSubquery { block_number: s.block_number, addr: s.addr, slot }
}

impl Storage {
    /// Looks up one storage slot of the account at the given block: the slot
    /// value passes through untransformed.
    pub fn slot(self, caller: &mut SubqueryCaller, slot: HiLo) -> (r: HiLo)
        ensures
            final(caller).subqueries@ == old(caller).subqueries@.push(
                Subquery::Storage(slot_record(self, slot)),
            ),
            final(caller).responses@ == old(caller).responses@,
            r == old(caller).next_response(),
    {
        let subquery = StorageSubquery {
            block_number: self.block_number,
            addr: self.addr,
            slot,
        };
        caller.call(Subquery::Storage(subquery))
    }
}

} // verus!
