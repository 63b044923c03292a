use vstd::prelude::*;
use crate::hilo::HiLo;

verus! {

/// The canonical record of one receipt-scoped subquery.
///
/// `field_or_log_idx` is overloaded by numeric range: a value below
/// [`crate::receipt::RECEIPT_LOGS_BLOOM_IDX_OFFSET`] encodes a whole-receipt
/// field, a value in the block of eight slots starting there encodes one
/// bloom-filter byte, and a value of at least
/// [`crate::receipt::RECEIPT_LOG_IDX_OFFSET`] targets one log of the receipt.
#[derive(Clone, Copy, Debug, PartialEq, Eq, Structural)]
pub struct ReceiptSubquery {
    pub block_number: u64,
    pub tx_idx: u64,
    pub field_or_log_idx: u64,
    pub topic_or_data_or_address_idx: u64,
    pub event_schema: HiLo,
}

/// The canonical record of one storage subquery: the slot value passes
/// through untransformed, storage slots are not overloaded with other field
/// kinds.
#[derive(Clone, Copy, Debug, PartialEq, Eq, Structural)]
pub struct StorageSubquery {
    pub block_number: u64,
    pub addr: u64,
    pub slot: HiLo,
}

/// One submitted subquery of either kind.
#[derive(Clone, Copy, Debug, PartialEq, Eq, Structural)]
pub enum Subquery {
    Receipt(ReceiptSubquery),
    Storage(StorageSubquery),
}

/// Rejection of an input that the builder protocol rules out by construction.
#[derive(Clone, Copy, Debug, PartialEq, Eq, Structural)]
pub enum SubqueryError {
    /// A bloom-filter byte index outside the fixed block of eight slots.
    BloomIdxOutOfRange,
}

} // verus!
