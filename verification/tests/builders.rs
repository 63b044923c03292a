use axiom_sdk::caller::SubqueryCaller;
use axiom_sdk::circuit::Context;
use axiom_sdk::hilo::HiLo;
use axiom_sdk::receipt::{
    get_receipt, ReceiptField, RECEIPT_ADDRESS_IDX, RECEIPT_DATA_IDX_OFFSET,
    RECEIPT_LOGS_BLOOM_IDX_OFFSET, RECEIPT_LOG_IDX_OFFSET,
};
use axiom_sdk::storage::get_storage;
use axiom_sdk::subquery::{ReceiptSubquery, StorageSubquery, Subquery, SubqueryError};

fn zero() -> HiLo {
    HiLo::from_hi_lo(0, 0)
}

#[test]
fn receipt_call_status_record() {
    let mut ctx = Context::new();
    let mut caller = SubqueryCaller::new();
    let out = get_receipt(100, 3).call(&mut ctx, &mut caller, ReceiptField::Status);
    assert_eq!(out, zero());
    assert_eq!(
        caller.subqueries,
        vec![Subquery::Receipt(ReceiptSubquery {
            block_number: 100,
            tx_idx: 3,
            field_or_log_idx: 0,
            topic_or_data_or_address_idx: 0,
            event_schema: zero(),
        })]
    );
}

#[test]
fn receipt_call_field_constants() {
    let cases = [
        (ReceiptField::Status, 0),
        (ReceiptField::PostState, 1),
        (ReceiptField::CumulativeGas, 2),
        (ReceiptField::LogsBloom, 3),
        (ReceiptField::Logs, 4),
        (ReceiptField::TxType, 51),
        (ReceiptField::BlockNumber, 52),
        (ReceiptField::TxIndex, 53),
    ];
    for (field, expected) in cases {
        let mut ctx = Context::new();
        let mut caller = SubqueryCaller::new();
        get_receipt(7, 1).call(&mut ctx, &mut caller, field);
        match caller.subqueries[0] {
            Subquery::Receipt(q) => assert_eq!(q.field_or_log_idx, expected),
            _ => panic!("wrong subquery kind"),
        }
    }
}

#[test]
fn logs_bloom_accepts_exactly_the_eight_slots() {
    for idx in 0..8u64 {
        let mut ctx = Context::new();
        let mut caller = SubqueryCaller::new();
        let out = get_receipt(100, 3).logs_bloom(&mut ctx, &mut caller, idx);
        assert!(out.is_ok());
        match caller.subqueries[0] {
            Subquery::Receipt(q) => {
                assert_eq!(q.field_or_log_idx, idx + RECEIPT_LOGS_BLOOM_IDX_OFFSET);
                assert_eq!(q.block_number, 100);
                assert_eq!(q.tx_idx, 3);
                assert_eq!(q.topic_or_data_or_address_idx, 0);
                assert_eq!(q.event_schema, zero());
            }
            _ => panic!("wrong subquery kind"),
        }
    }
    for idx in [8u64, 9, 1000, u64::MAX] {
        let mut ctx = Context::new();
        let mut caller = SubqueryCaller::new();
        let out = get_receipt(100, 3).logs_bloom(&mut ctx, &mut caller, idx);
        assert_eq!(out, Err(SubqueryError::BloomIdxOutOfRange));
        assert!(caller.subqueries.is_empty());
        assert!(ctx.constants.is_empty());
    }
}

#[test]
fn log_topic_record() {
    let mut ctx = Context::new();
    let mut caller = SubqueryCaller::new();
    let lg = get_receipt(100, 3).log(&mut ctx, 2);
    let _ = lg.topic(&mut ctx, &mut caller, 5, None);
    assert_eq!(
        caller.subqueries,
        vec![Subquery::Receipt(ReceiptSubquery {
            block_number: 100,
            tx_idx: 3,
            field_or_log_idx: 2 + RECEIPT_LOG_IDX_OFFSET,
            topic_or_data_or_address_idx: 5,
            event_schema: zero(),
        })]
    );
}

#[test]
fn log_data_shifts_the_data_index() {
    let mut ctx = Context::new();
    let mut caller = SubqueryCaller::new();
    let lg = get_receipt(20, 4).log(&mut ctx, 6);
    let _ = lg.data(&mut ctx, &mut caller, 9, None);
    match caller.subqueries[0] {
        Subquery::Receipt(q) => {
            assert_eq!(q.field_or_log_idx, 6 + RECEIPT_LOG_IDX_OFFSET);
            assert_eq!(q.topic_or_data_or_address_idx, 9 + RECEIPT_DATA_IDX_OFFSET);
            assert_eq!(q.event_schema, zero());
        }
        _ => panic!("wrong subquery kind"),
    }
}

#[test]
fn log_address_uses_the_fixed_constant() {
    let mut ctx = Context::new();
    let mut caller = SubqueryCaller::new();
    let lg = get_receipt(11, 2).log(&mut ctx, 3);
    let _ = lg.address(&mut ctx, &mut caller);
    match caller.subqueries[0] {
        Subquery::Receipt(q) => {
            assert_eq!(q.topic_or_data_or_address_idx, RECEIPT_ADDRESS_IDX);
            assert_eq!(q.field_or_log_idx, 3 + RECEIPT_LOG_IDX_OFFSET);
            assert_eq!(q.event_schema, zero());
        }
        _ => panic!("wrong subquery kind"),
    }
}

#[test]
fn explicit_schema_round_trips() {
    let schema = HiLo::from_hi_lo(7, 9);
    let mut ctx = Context::new();
    let mut caller = SubqueryCaller::new();
    let lg = get_receipt(1, 1).log(&mut ctx, 0);
    let _ = lg.topic(&mut ctx, &mut caller, 2, Some(schema));
    match caller.subqueries[0] {
        Subquery::Receipt(q) => assert_eq!(q.event_schema, schema),
        _ => panic!("wrong subquery kind"),
    }

    let mut ctx2 = Context::new();
    let mut caller2 = SubqueryCaller::new();
    let lg2 = get_receipt(1, 1).log(&mut ctx2, 0);
    let _ = lg2.data(&mut ctx2, &mut caller2, 2, Some(schema));
    match caller2.subqueries[0] {
        Subquery::Receipt(q) => assert_eq!(q.event_schema, schema),
        _ => panic!("wrong subquery kind"),
    }
}

#[test]
fn storage_slot_passes_values_through() {
    let mut caller = SubqueryCaller::new();
    let slot = HiLo::from_hi_lo(1, 2);
    let _ = get_storage(55, 77).slot(&mut caller, slot);
    assert_eq!(
        caller.subqueries,
        vec![Subquery::Storage(StorageSubquery { block_number: 55, addr: 77, slot })]
    );
}

#[test]
fn offset_arithmetic_is_recorded_in_the_context() {
    let mut ctx = Context::new();
    let mut caller = SubqueryCaller::new();
    let lg = get_receipt(100, 3).log(&mut ctx, 2);
    let _ = lg.data(&mut ctx, &mut caller, 4, None);
    assert_eq!(ctx.add_ops.len(), 2);
    assert_eq!(ctx.add_ops[0].a, 2);
    assert_eq!(ctx.add_ops[0].b, RECEIPT_LOG_IDX_OFFSET);
    assert_eq!(ctx.add_ops[0].sum, 102);
    assert_eq!(ctx.add_ops[1].a, 4);
    assert_eq!(ctx.add_ops[1].b, RECEIPT_DATA_IDX_OFFSET);
    assert_eq!(ctx.add_ops[1].sum, 104);
    for op in &ctx.add_ops {
        assert_eq!(op.sum, op.a + op.b);
    }
}

#[test]
fn responses_are_handed_out_in_order() {
    let a = HiLo::from_hi_lo(1, 10);
    let b = HiLo::from_hi_lo(2, 20);
    let mut ctx = Context::new();
    let mut caller = SubqueryCaller::with_responses(vec![a, b]);
    let first = get_receipt(1, 0).call(&mut ctx, &mut caller, ReceiptField::Status);
    let second = get_receipt(2, 0).call(&mut ctx, &mut caller, ReceiptField::Logs);
    let third = get_receipt(3, 0).call(&mut ctx, &mut caller, ReceiptField::TxType);
    assert_eq!(first, a);
    assert_eq!(second, b);
    assert_eq!(third, zero());
    assert_eq!(caller.subqueries.len(), 3);
}
