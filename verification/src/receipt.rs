use vstd::prelude::*;
use crate::caller::SubqueryCaller;
use crate::circuit::{AddOp, Context};
use crate::hilo::HiLo;
use crate::subquery::{ReceiptSubquery, Subquery, SubqueryError};

verus! {

/// Field-slot value standing for a log's address; it shares the
/// topic/data/address slot with topic and data indices.
pub const RECEIPT_ADDRESS_IDX: u64 = 50;

/// First of the eight field slots that encode one bloom-filter byte each.
pub const RECEIPT_LOGS_BLOOM_IDX_OFFSET: u64 = 70;

/// Offset added to a log index in the overloaded field slot: values at or
/// above it target one log of the receipt.
pub const RECEIPT_LOG_IDX_OFFSET: u64 = 100;

/// Offset added to a data index in the topic/data/address slot, keeping data
/// and topic indices in disjoint ranges.
pub const RECEIPT_DATA_IDX_OFFSET: u64 = 100;

/// Field-slot constant for the receipt's transaction type.
pub const RECEIPT_TX_TYPE_FIELD_IDX: u64 = 51;

/// Field-slot constant for the receipt's block number.
pub const RECEIPT_BLOCK_NUMBER_FIELD_IDX: u64 = 52;

/// Field-slot constant for the receipt's transaction index.
pub const RECEIPT_TX_INDEX_FIELD_IDX: u64 = 53;

/// Number of bloom-filter byte slots a receipt exposes.
pub const NUM_LOGS_BLOOM_SLOTS: u64 = 8;

/// A whole-receipt field that `Receipt::call` can look up.
#[derive(Clone, Copy, Debug, PartialEq, Eq, Structural)]
pub enum ReceiptField {
    Status,
    PostState,
    CumulativeGas,
    LogsBloom,
    Logs,
    TxType,
    BlockNumber,
    TxIndex,
}

impl ReceiptField {
    /// The field-slot constant a receipt field is encoded as.
    pub open spec fn spec_idx(self) -> u64 {
        match self {
            ReceiptField::Status => 0,
            ReceiptField::PostState => 1,
            ReceiptField::CumulativeGas => 2,
            ReceiptField::LogsBloom => 3,
            ReceiptField::Logs => 4,
            ReceiptField::TxType => RECEIPT_TX_TYPE_FIELD_IDX,
            ReceiptField::BlockNumber => RECEIPT_BLOCK_NUMBER_FIELD_IDX,
            ReceiptField::TxIndex => RECEIPT_TX_INDEX_FIELD_IDX,
        }
    }

    /// Encodes the field as its numeric field-slot constant.
    pub fn field_index(self) -> (r: u64)
        ensures
            r == self.spec_idx(),
    {
        match self {
            ReceiptField::Status => 0,
            ReceiptField::PostState => 1,
            ReceiptField::CumulativeGas => 2,
            ReceiptField::LogsBloom => 3,
            ReceiptField::Logs => 4,
            ReceiptField::TxType => RECEIPT_TX_TYPE_FIELD_IDX,
            ReceiptField::BlockNumber => RECEIPT_BLOCK_NUMBER_FIELD_IDX,
            ReceiptField::TxIndex => RECEIPT_TX_INDEX_FIELD_IDX,
        }
    }
}

/// A receipt-scoped query in the making: the block number and transaction
/// index it will ask about. A terminal call consumes the builder, so a query
/// is submitted at most once per builder value.
pub struct Receipt {
    pub block_number: u64,
    pub tx_idx: u64,
}

/// A log-scoped query in the making: block number, transaction index and the
/// offset-encoded log index carried forward from `Receipt::log`.
pub struct Log {
    pub block_number: u64,
    pub tx_idx: u64,
    pub field_or_log_idx: u64,
}

/// Starts a receipt query for the given block number and transaction index.
pub fn get_receipt(block_number: u64, tx_idx: u64) -> (r: Receipt)
    ensures
        r == (Receipt { block_number, tx_idx }),
{
    Receipt { block_number, tx_idx }
}

/// The event schema actually submitted: the one supplied, or the zero
/// sentinel meaning "no schema filter".
pub open spec fn schema_or_sentinel(event_schema: Option<HiLo>) -> HiLo {
    match event_schema {
        Some(s) => s,
        None => HiLo::zero(),
    }
}

/// The record a whole-receipt field lookup submits: the encoded field
/// constant in the field slot, everything log-scoped zeroed.
pub open spec fn call_record(r: Receipt, field: ReceiptField) -> ReceiptSubquery {
    ReceiptSubquery {
        block_number: r.block_number,
        tx_idx: r.tx_idx,
        field_or_log_idx: field.spec_idx(),
        topic_or_data_or_address_idx: 0,
        event_schema: HiLo::zero(),
    }
}

/// The record a bloom-filter byte lookup submits: the byte index shifted into
/// the bloom block of the field slot.
pub open spec fn bloom_record(r: Receipt, bloom_idx: u64) -> ReceiptSubquery {
    ReceiptSubquery {
        block_number: r.block_number,
        tx_idx: r.tx_idx,
        field_or_log_idx: (bloom_idx + RECEIPT_LOGS_BLOOM_IDX_OFFSET) as u64,
        topic_or_data_or_address_idx: 0,
        event_schema: HiLo::zero(),
    }
}

/// The log builder `Receipt::log` transitions to: the log index shifted into
/// the log range of the field slot, block and transaction carried forward.
pub open spec fn log_of(r: Receipt, log_idx: u64) -> Log {
    Log {
        block_number: r.block_number,
        tx_idx: r.tx_idx,
        field_or_log_idx: (log_idx + RECEIPT_LOG_IDX_OFFSET) as u64,
    }
}

/// The record a topic lookup submits: the topic index used directly in the
/// topic/data/address slot.
pub open spec fn topic_record(lg: Log, topic_idx: u64, event_schema: Option<HiLo>) -> ReceiptSubquery {
    ReceiptSubquery {
        block_number: lg.block_number,
        tx_idx: lg.tx_idx,
        field_or_log_idx: lg.field_or_log_idx,
        topic_or_data_or_address_idx: topic_idx,
        event_schema: schema_or_sentinel(event_schema),
    }
}

/// The record a data lookup submits: the data index shifted by
/// `RECEIPT_DATA_IDX_OFFSET` before entering the topic/data/address slot.
pub open spec fn data_record(lg: Log, data_idx: u64, event_schema: Option<HiLo>) -> ReceiptSubquery {
    ReceiptSubquery {
        block_number: lg.block_number,
        tx_idx: lg.tx_idx,
        field_or_log_idx: lg.field_or_log_idx,
        topic_or_data_or_address_idx: (data_idx + RECEIPT_DATA_IDX_OFFSET) as u64,
        event_schema: schema_or_sentinel(event_schema),
    }
}

/// The record an address lookup submits: the fixed address constant in the
/// topic/data/address slot.
pub open spec fn address_record(lg: Log) -> ReceiptSubquery {
    ReceiptSubquery {
        block_number: lg.block_number,
        tx_idx: lg.tx_idx,
        field_or_log_idx: lg.field_or_log_idx,
        topic_or_data_or_address_idx: RECEIPT_ADDRESS_IDX,
        event_schema: HiLo::zero(),
    }
}

impl Receipt {
    /// Looks up one whole-receipt field: encodes the field to its constant,
    /// zero-fills the log-scoped slots, and submits the record.
    pub fn call(self, ctx: &mut Context, caller: &mut SubqueryCaller, field: ReceiptField) -> (r: HiLo)
        ensures
            final(caller).subqueries@ == old(caller).subqueries@.push(
                Subquery::Receipt(call_record(self, field)),
            ),
            final(caller).responses@ == old(caller).responses@,
            r == old(caller).next_response(),
            final(ctx).constants@ == old(ctx).constants@ + seq![field.spec_idx(), 0u64, 0u64, 0u64],
            final(ctx).add_ops@ == old(ctx).add_ops@,
            old(ctx).wf() ==> final(ctx).wf(),
    {
        let field_constant = ctx.load_constant(field.field_index());
        let topic = ctx.load_constant(0);
        let schema_hi = ctx.load_constant(0);
        let schema_lo = ctx.load_constant(0);
        let event_schema = HiLo::from_hi_lo(schema_hi, schema_lo);
        let subquery = ReceiptSubquery {
            block_number: self.block_number,
            tx_idx: self.tx_idx,
            field_or_log_idx: field_constant,
            topic_or_data_or_address_idx: topic,
            event_schema,
        };
        let r = caller.call(Subquery::Receipt(subquery));
        proof {
            assert(ctx.constants@ =~= old(ctx).constants@ + seq![field.spec_idx(), 0u64, 0u64, 0u64]);
        }
        r
    }

    /// Transitions to a log-scoped builder: adds `RECEIPT_LOG_IDX_OFFSET` to
    /// the log index through constrained addition and carries the block and
    /// transaction identifiers forward.
    pub fn log(self, ctx: &mut Context, log_idx: u64) -> (r: Log)
        requires
            log_idx + RECEIPT_LOG_IDX_OFFSET <= u64::MAX,
        ensures
            r == log_of(self, log_idx),
            final(ctx).constants@ == old(ctx).constants@.push(RECEIPT_LOG_IDX_OFFSET),
            final(ctx).add_ops@ == old(ctx).add_ops@.push(
                AddOp {
                    a: log_idx,
                    b: RECEIPT_LOG_IDX_OFFSET,
                    sum: (log_idx + RECEIPT_LOG_IDX_OFFSET) as u64,
                },
            ),
            old(ctx).wf() ==> final(ctx).wf(),
    {
        let log_offset = ctx.load_constant(RECEIPT_LOG_IDX_OFFSET);
        let log_idx_with_offset = ctx.constrained_add(log_idx, log_offset);
        Log {
            block_number: self.block_number,
            tx_idx: self.tx_idx,
            field_or_log_idx: log_idx_with_offset,
        }
    }

    /// Looks up one byte of the receipt's bloom filter. Only the eight slots
    /// `0 .. NUM_LOGS_BLOOM_SLOTS` exist; any other index is invalid by
    /// construction and is rejected without touching the context or the
    /// caller.
    pub fn logs_bloom(
        self,
        ctx: &mut Context,
        caller: &mut SubqueryCaller,
        logs_bloom_idx: u64,
    ) -> (r: Result<HiLo, SubqueryError>)
        ensures
            r is Ok <==> logs_bloom_idx < NUM_LOGS_BLOOM_SLOTS,
            logs_bloom_idx < NUM_LOGS_BLOOM_SLOTS ==> {
                &&& final(caller).subqueries@ == old(caller).subqueries@.push(
                    Subquery::Receipt(bloom_record(self, logs_bloom_idx)),
                )
                &&& r == Ok::<HiLo, SubqueryError>(old(caller).next_response())
                &&& final(ctx).constants@ == old(ctx).constants@ + seq![
                    (logs_bloom_idx + RECEIPT_LOGS_BLOOM_IDX_OFFSET) as u64,
                    0u64,
                    0u64,
                    0u64,
                ]
            },
            logs_bloom_idx >= NUM_LOGS_BLOOM_SLOTS ==> {
                &&& final(caller).subqueries@ == old(caller).subqueries@
                &&& final(ctx).constants@ == old(ctx).constants@
                &&& r == Err::<HiLo, SubqueryError>(SubqueryError::BloomIdxOutOfRange)
            },
            final(caller).responses@ == old(caller).responses@,
            final(ctx).add_ops@ == old(ctx).add_ops@,
            old(ctx).wf() ==> final(ctx).wf(),
    {
        if logs_bloom_idx >= NUM_LOGS_BLOOM_SLOTS {
            return Err(SubqueryError::BloomIdxOutOfRange);
        }
        let field_idx = logs_bloom_idx + RECEIPT_LOGS_BLOOM_IDX_OFFSET;
        let assigned_field_idx = ctx.load_constant(field_idx);
        let topic = ctx.load_constant(0);
        let schema_hi = ctx.load_constant(0);
        let schema_lo = ctx.load_constant(0);
        let event_schema = HiLo::from_hi_lo(schema_hi, schema_lo);
        let subquery = ReceiptSubquery {
            block_number: self.block_number,
            field_or_log_idx: assigned_field_idx,
            tx_idx: self.tx_idx,
            topic_or_data_or_address_idx: topic,
            event_schema,
        };
        let r = caller.call(Subquery::Receipt(subquery));
        proof {
            assert(ctx.constants@ =~= old(ctx).constants@ + seq![
                (logs_bloom_idx + RECEIPT_LOGS_BLOOM_IDX_OFFSET) as u64,
                0u64,
                0u64,
                0u64,
            ]);
        }
        Ok(r)
    }
}

impl Log {
    /// Looks up one topic of the log: the topic index goes into the
    /// topic/data/address slot as given; a missing event schema defaults to
    /// the zero sentinel.
    pub fn topic(
        self,
        ctx: &mut Context,
        caller: &mut SubqueryCaller,
        topic_idx: u64,
        event_schema: Option<HiLo>,
    ) -> (r: HiLo)
        ensures
            final(caller).subqueries@ == old(caller).subqueries@.push(
                Subquery::Receipt(topic_record(self, topic_idx, event_schema)),
            ),
            final(caller).responses@ == old(caller).responses@,
            r == old(caller).next_response(),
            final(ctx).constants@ == old(ctx).constants@ + (if event_schema is Some {
                Seq::<u64>::empty()
            } else {
                seq![0u64, 0u64]
            }),
            final(ctx).add_ops@ == old(ctx).add_ops@,
            old(ctx).wf() ==> final(ctx).wf(),
    {
        let event_schema_value = match event_schema {
            Some(s) => s,
            None => {
                let schema_hi = ctx.load_constant(0);
                let schema_lo = ctx.load_constant(0);
                HiLo::from_hi_lo(schema_hi, schema_lo)
            },
        };
        let subquery = ReceiptSubquery {
            block_number: self.block_number,
            tx_idx: self.tx_idx,
            field_or_log_idx: self.field_or_log_idx,
            topic_or_data_or_address_idx: topic_idx,
            event_schema: event_schema_value,
        };
        let r = caller.call(Subquery::Receipt(subquery));
        proof {
            assert(ctx.constants@ =~= old(ctx).constants@ + (if event_schema is Some {
                Seq::<u64>::empty()
            } else {
                seq![0u64, 0u64]
            }));
        }
        r
    }

    /// Looks up one word of the log's data: the data index is shifted by
    /// `RECEIPT_DATA_IDX_OFFSET` through constrained addition before entering
    /// the topic/data/address slot, keeping data and topic indices disjoint.
    pub fn data(
        self,
        ctx: &mut Context,
        caller: &mut SubqueryCaller,
        data_idx: u64,
        event_schema: Option<HiLo>,
    ) -> (r: HiLo)
        requires
            data_idx + RECEIPT_DATA_IDX_OFFSET <= u64::MAX,
        ensures
            final(caller).subqueries@ == old(caller).subqueries@.push(
                Subquery::Receipt(data_record(self, data_idx, event_schema)),
            ),
            final(caller).responses@ == old(caller).responses@,
            r == old(caller).next_response(),
            final(ctx).constants@ == old(ctx).constants@ + (if event_schema is Some {
                seq![RECEIPT_DATA_IDX_OFFSET]
            } else {
                seq![0u64, 0u64, RECEIPT_DATA_IDX_OFFSET]
            }),
            final(ctx).add_ops@ == old(ctx).add_ops@.push(
                AddOp {
                    a: data_idx,
                    b: RECEIPT_DATA_IDX_OFFSET,
                    sum: (data_idx + RECEIPT_DATA_IDX_OFFSET) as u64,
                },
            ),
            old(ctx).wf() ==> final(ctx).wf(),
    {
        let event_schema_value = match event_schema {
            Some(s) => s,
            None => {
                let schema_hi = ctx.load_constant(0);
                let schema_lo = ctx.load_constant(0);
                HiLo::from_hi_lo(schema_hi, schema_lo)
            },
        };
        let data_offset = ctx.load_constant(RECEIPT_DATA_IDX_OFFSET);
        let data_idx_with_offset = ctx.constrained_add(data_idx, data_offset);
        let subquery = ReceiptSubquery {
            block_number: self.block_number,
            tx_idx: self.tx_idx,
            field_or_log_idx: self.field_or_log_idx,
            topic_or_data_or_address_idx: data_idx_with_offset,
            event_schema: event_schema_value,
        };
        let r = caller.call(Subquery::Receipt(subquery));
        proof {
            assert(ctx.constants@ =~= old(ctx).constants@ + (if event_schema is Some {
                seq![RECEIPT_DATA_IDX_OFFSET]
            } else {
                seq![0u64, 0u64, RECEIPT_DATA_IDX_OFFSET]
            }));
        }
        r
    }

    /// Looks up the log's address: the fixed constant `RECEIPT_ADDRESS_IDX`
    /// fills the topic/data/address slot, whatever the log carries.
    pub fn address(self, ctx: &mut Context, caller: &mut SubqueryCaller) -> (r: HiLo)
        ensures
            final(caller).subqueries@ == old(caller).subqueries@.push(
                Subquery::Receipt(address_record(self)),
            ),
            final(caller).responses@ == old(caller).responses@,
            r == old(caller).next_response(),
            final(ctx).constants@ == old(ctx).constants@ + seq![RECEIPT_ADDRESS_IDX, 0u64, 0u64],
            final(ctx).add_ops@ == old(ctx).add_ops@,
            old(ctx).wf() ==> final(ctx).wf(),
    {
        let topic = ctx.load_constant(RECEIPT_ADDRESS_IDX);
        let schema_hi = ctx.load_constant(0);
        let schema_lo = ctx.load_constant(0);
        let event_schema = HiLo::from_hi_lo(schema_hi, schema_lo);
        let subquery = ReceiptSubquery {
            block_number: self.block_number,
            tx_idx: self.tx_idx,
            field_or_log_idx: self.field_or_log_idx,
            topic_or_data_or_address_idx: topic,
            event_schema,
        };
        let r = caller.call(Subquery::Receipt(subquery));
        proof {
            assert(ctx.constants@ =~= old(ctx).constants@ + seq![RECEIPT_ADDRESS_IDX, 0u64, 0u64]);
        }
        r
    }
}

/// A topic picked through a log transition keeps every promised slot: the
/// field slot is the log index plus `RECEIPT_LOG_IDX_OFFSET`, the
/// topic/data/address slot is the topic index untouched, and with no schema
/// supplied the schema slot holds the zero sentinel.
pub proof fn lemma_log_topic(r: Receipt, log_idx: u64, topic_idx: u64)
    requires
        log_idx + RECEIPT_LOG_IDX_OFFSET <= u64::MAX,
    ensures
        topic_record(log_of(r, log_idx), topic_idx, None).field_or_log_idx
            == log_idx + RECEIPT_LOG_IDX_OFFSET,
        topic_record(log_of(r, log_idx), topic_idx, None).topic_or_data_or_address_idx == topic_idx,
        topic_record(log_of(r, log_idx), topic_idx, None).event_schema == HiLo::zero(),
        topic_record(log_of(r, log_idx), topic_idx, None).block_number == r.block_number,
        topic_record(log_of(r, log_idx), topic_idx, None).tx_idx == r.tx_idx,
{
}

/// A data word picked through a log transition lands in the data range of the
/// shared slot: the data index plus `RECEIPT_DATA_IDX_OFFSET`.
pub proof fn lemma_log_data(r: Receipt, log_idx: u64, data_idx: u64)
    requires
        log_idx + RECEIPT_LOG_IDX_OFFSET <= u64::MAX,
        data_idx + RECEIPT_DATA_IDX_OFFSET <= u64::MAX,
    ensures
        data_record(log_of(r, log_idx), data_idx, None).topic_or_data_or_address_idx
            == data_idx + RECEIPT_DATA_IDX_OFFSET,
        data_record(log_of(r, log_idx), data_idx, None).field_or_log_idx
            == log_idx + RECEIPT_LOG_IDX_OFFSET,
        data_record(log_of(r, log_idx), data_idx, None).event_schema == HiLo::zero(),
{
}

/// An address lookup fills the shared slot with `RECEIPT_ADDRESS_IDX`, for
/// every log builder whatever it carries.
pub proof fn lemma_log_address(lg: Log)
    ensures
        address_record(lg).topic_or_data_or_address_idx == RECEIPT_ADDRESS_IDX,
        address_record(lg).field_or_log_idx == lg.field_or_log_idx,
        address_record(lg).event_schema == HiLo::zero(),
{
}

/// An explicitly supplied event schema overrides the zero sentinel exactly:
/// the schema submitted equals the schema passed in, for topic and data
/// lookups alike.
pub proof fn lemma_schema_override(lg: Log, idx: u64, schema: HiLo)
    ensures
        topic_record(lg, idx, Some(schema)).event_schema == schema,
        data_record(lg, idx, Some(schema)).event_schema == schema,
{
}

/// The three ways of filling the overloaded field slot land in pairwise
/// disjoint ranges: whole-receipt field constants lie below the bloom block,
/// the eight bloom slots lie between the bloom offset and the log offset, and
/// log-targeting values lie at or above the log offset.
pub proof fn lemma_field_slot_ranges(field: ReceiptField, bloom_idx: u64, r: Receipt, log_idx: u64)
    requires
        bloom_idx < NUM_LOGS_BLOOM_SLOTS,
        log_idx + RECEIPT_LOG_IDX_OFFSET <= u64::MAX,
    ensures
        field.spec_idx() < RECEIPT_LOGS_BLOOM_IDX_OFFSET,
        RECEIPT_LOGS_BLOOM_IDX_OFFSET <= bloom_idx + RECEIPT_LOGS_BLOOM_IDX_OFFSET
            < RECEIPT_LOG_IDX_OFFSET,
        log_of(r, log_idx).field_or_log_idx >= RECEIPT_LOG_IDX_OFFSET,
{
}

} // verus!
