use mp_starknet::execution::{CallEntryPointWrapper, ContractClassWrapper, EntryPointTypeWrapper};
use mp_starknet::felt::{Felt252Wrapper, Felt252WrapperError, U256Wrapper};
use mp_starknet::receipt::{
    EventWrapper, RPCEvent, RPCMaybePendingTransactionReceipt, RPCTransactionReceipt,
    RPCTransactionStatus, TransactionReceiptWrapper,
};
use mp_starknet::rpc::{
    RPCDeclareTransaction, RPCInvokeTransaction, RPCTransaction, RPCTransactionConversionError,
};
use mp_starknet::transaction::{InvokeTransaction, Transaction, TxType};

fn felt(x: u64) -> Felt252Wrapper {
    Felt252Wrapper::from_u64(x)
}

fn canonical(tx_type: TxType, version: u8) -> Transaction {
    Transaction {
        tx_type,
        version,
        hash: felt(0x7a54),
        signature: vec![felt(0x51), felt(0x52)],
        sender_address: felt(0x5e4d),
        nonce: felt(11),
        call_entrypoint: CallEntryPointWrapper::new(
            Some(felt(0xc1a55)),
            EntryPointTypeWrapper::External,
            Some(felt(0x5e1ec7)),
            vec![felt(21), felt(22)],
            felt(0xc047ac7),
            felt(0x5e4d),
        ),
        contract_class: None,
        contract_address_salt: Some(U256Wrapper { hi: 0, lo: 0x5a17 }),
        max_fee: felt(999),
    }
}

#[test]
fn declare_projects_by_version() {
    let t1 = RPCTransaction::try_from(canonical(TxType::Declare, 1)).unwrap();
    match t1 {
        RPCTransaction::Declare(RPCDeclareTransaction::V1(d)) => {
            assert_eq!(d.transaction_hash, felt(0x7a54));
            assert_eq!(d.class_hash, felt(0xc1a55));
            assert_eq!(d.sender_address, felt(0x5e4d));
            assert_eq!(d.max_fee, felt(999));
            assert_eq!(d.signature, vec![felt(0x51), felt(0x52)]);
        }
        other => panic!("wrong sub-kind: {:?}", other),
    }

    let t2 = RPCTransaction::try_from(canonical(TxType::Declare, 2)).unwrap();
    match t2 {
        RPCTransaction::Declare(RPCDeclareTransaction::V2(d)) => {
            assert_eq!(d.compiled_class_hash, d.class_hash);
            assert_eq!(d.class_hash, felt(0xc1a55));
        }
        other => panic!("wrong sub-kind: {:?}", other),
    }
}

#[test]
fn declare_with_unknown_version_is_rejected() {
    assert_eq!(
        RPCTransaction::try_from(canonical(TxType::Declare, 0)),
        Err(RPCTransactionConversionError::UnknownVersion)
    );
    assert_eq!(
        RPCTransaction::try_from(canonical(TxType::Declare, 3)),
        Err(RPCTransactionConversionError::UnknownVersion)
    );
}

#[test]
fn declare_with_missing_class_hash_is_rejected_before_version() {
    let mut tx = canonical(TxType::Declare, 3);
    tx.call_entrypoint.class_hash = None;
    assert_eq!(
        RPCTransaction::try_from(tx),
        Err(RPCTransactionConversionError::MissingInformation)
    );
}

#[test]
fn invoke_v0_projects_with_selector() {
    let t = RPCTransaction::try_from(canonical(TxType::Invoke, 0)).unwrap();
    match t {
        RPCTransaction::Invoke(RPCInvokeTransaction::V0(i)) => {
            assert_eq!(i.contract_address, felt(0xc047ac7));
            assert_eq!(i.entry_point_selector, felt(0x5e1ec7));
            assert_eq!(i.calldata, vec![felt(21), felt(22)]);
        }
        other => panic!("wrong sub-kind: {:?}", other),
    }
}

#[test]
fn invoke_v0_without_selector_is_rejected() {
    let mut tx = canonical(TxType::Invoke, 0);
    tx.call_entrypoint.entrypoint_selector = None;
    assert_eq!(
        RPCTransaction::try_from(tx),
        Err(RPCTransactionConversionError::MissingInformation)
    );
}

#[test]
fn invoke_with_unknown_version_is_rejected() {
    assert_eq!(
        RPCTransaction::try_from(canonical(TxType::Invoke, 2)),
        Err(RPCTransactionConversionError::UnknownVersion)
    );
}

#[test]
fn normalized_invoke_projects_to_public_v1() {
    // An invoke with version 1, empty calldata, sender 0x1 and nonce 0,
    // upcast and then projected outward.
    let v = InvokeTransaction {
        version: 1,
        sender_address: felt(0x1),
        calldata: vec![],
        nonce: felt(0),
        signature: vec![],
        max_fee: felt(0),
    };
    let tx = v.from_invoke("SN_TEST");
    let p = RPCTransaction::try_from(tx).unwrap();
    match p {
        RPCTransaction::Invoke(RPCInvokeTransaction::V1(i)) => {
            assert_eq!(i.sender_address, felt(0x1));
            assert!(i.calldata.is_empty());
        }
        other => panic!("wrong sub-kind: {:?}", other),
    }
}

#[test]
fn deploy_account_projects_with_salt_narrowed() {
    let t = RPCTransaction::try_from(canonical(TxType::DeployAccount, 1)).unwrap();
    match t {
        RPCTransaction::DeployAccount(d) => {
            assert_eq!(d.contract_address_salt, felt(0x5a17));
            assert_eq!(d.class_hash, felt(0xc1a55));
            assert_eq!(d.constructor_calldata, vec![felt(21), felt(22)]);
        }
        other => panic!("wrong sub-kind: {:?}", other),
    }
}

#[test]
fn deploy_account_without_salt_is_rejected() {
    let mut tx = canonical(TxType::DeployAccount, 1);
    tx.contract_address_salt = None;
    assert_eq!(
        RPCTransaction::try_from(tx),
        Err(RPCTransactionConversionError::MissingInformation)
    );
}

#[test]
fn deploy_account_with_wide_salt_is_out_of_range() {
    let mut tx = canonical(TxType::DeployAccount, 1);
    tx.contract_address_salt = Some(U256Wrapper { hi: u128::MAX, lo: 0 });
    assert_eq!(
        RPCTransaction::try_from(tx),
        Err(RPCTransactionConversionError::OutOfRange)
    );
}

#[test]
fn deploy_account_without_class_hash_is_rejected() {
    let mut tx = canonical(TxType::DeployAccount, 1);
    tx.call_entrypoint.class_hash = None;
    assert_eq!(
        RPCTransaction::try_from(tx),
        Err(RPCTransactionConversionError::MissingInformation)
    );
}

#[test]
fn l1_handler_projects_with_narrowed_nonce() {
    let mut tx = canonical(TxType::L1Handler, 0);
    tx.nonce = felt(0x1234);
    let t = RPCTransaction::try_from(tx).unwrap();
    match t {
        RPCTransaction::L1Handler(l) => {
            assert_eq!(l.nonce, 0x1234u64);
            assert_eq!(l.version, 0u64);
            assert_eq!(l.contract_address, felt(0xc047ac7));
            assert_eq!(l.entry_point_selector, felt(0x5e1ec7));
        }
        other => panic!("wrong sub-kind: {:?}", other),
    }
}

#[test]
fn l1_handler_with_wide_nonce_fails_instead_of_aborting() {
    let mut tx = canonical(TxType::L1Handler, 0);
    tx.nonce = Felt252Wrapper::from_u128(0x1_0000_0000_0000_0000);
    assert_eq!(
        RPCTransaction::try_from(tx),
        Err(RPCTransactionConversionError::ValueTooLarge)
    );
}

#[test]
fn felt_errors_map_into_projection_errors_kind_for_kind() {
    let pairs = [
        (Felt252WrapperError::FromArrayError, RPCTransactionConversionError::FromArrayError),
        (Felt252WrapperError::InvalidLength, RPCTransactionConversionError::InvalidLength),
        (
            Felt252WrapperError::InvalidCharacter,
            RPCTransactionConversionError::InvalidCharacter,
        ),
        (Felt252WrapperError::OutOfRange, RPCTransactionConversionError::OutOfRange),
        (Felt252WrapperError::ValueTooLarge, RPCTransactionConversionError::ValueTooLarge),
    ];
    for (from, to) in pairs {
        assert_eq!(RPCTransactionConversionError::from(from), to);
    }
}

fn sample_event() -> EventWrapper {
    EventWrapper {
        keys: vec![felt(0x10), felt(0x11)],
        data: vec![felt(0x20)],
        from_address: felt(0x30),
        transaction_hash: felt(0x40),
    }
}

fn sample_receipt(tx_type: TxType) -> TransactionReceiptWrapper {
    TransactionReceiptWrapper {
        transaction_hash: felt(0x40),
        actual_fee: felt(120),
        tx_type,
        block_number: 7,
        block_hash: felt(0xb10c),
        contract_address: felt(0xde9107ed),
        events: vec![sample_event()],
    }
}

#[test]
fn event_projection_keeps_keys_data_and_source() {
    let e = RPCEvent::from(sample_event());
    assert_eq!(e.from_address, felt(0x30));
    assert_eq!(e.keys, vec![felt(0x10), felt(0x11)]);
    assert_eq!(e.data, vec![felt(0x20)]);
}

#[test]
fn l1_handler_receipt_has_empty_messages_sent() {
    let r = sample_receipt(TxType::L1Handler)
        .into_maybe_pending_transaction_receipt(RPCTransactionStatus::AcceptedOnL1);
    match r {
        RPCMaybePendingTransactionReceipt::Receipt(RPCTransactionReceipt::L1Handler(rc)) => {
            assert_eq!(rc.status, RPCTransactionStatus::AcceptedOnL1);
            assert!(rc.messages_sent.is_empty());
            assert_eq!(rc.events.len(), 1);
        }
        other => panic!("wrong receipt sub-kind: {:?}", other),
    }
}

#[test]
fn receipt_projection_dispatches_on_kind() {
    let r = sample_receipt(TxType::Declare)
        .into_maybe_pending_transaction_receipt(RPCTransactionStatus::AcceptedOnL2);
    assert!(matches!(
        r,
        RPCMaybePendingTransactionReceipt::Receipt(RPCTransactionReceipt::Declare(_))
    ));

    let r = sample_receipt(TxType::Invoke)
        .into_maybe_pending_transaction_receipt(RPCTransactionStatus::Pending);
    match r {
        RPCMaybePendingTransactionReceipt::Receipt(RPCTransactionReceipt::Invoke(rc)) => {
            assert_eq!(rc.transaction_hash, felt(0x40));
            assert_eq!(rc.actual_fee, felt(120));
            assert_eq!(rc.block_number, 7);
            assert_eq!(rc.block_hash, felt(0xb10c));
            let e = &rc.events[0];
            assert_eq!(e.keys, vec![felt(0x10), felt(0x11)]);
        }
        other => panic!("wrong receipt sub-kind: {:?}", other),
    }

    let r = sample_receipt(TxType::L1Handler)
        .into_maybe_pending_transaction_receipt(RPCTransactionStatus::Received);
    assert!(matches!(
        r,
        RPCMaybePendingTransactionReceipt::Receipt(RPCTransactionReceipt::L1Handler(_))
    ));
}

#[test]
fn receipt_projection_keeps_event_order() {
    let mut receipt = sample_receipt(TxType::Invoke);
    receipt.events = vec![
        EventWrapper {
            keys: vec![felt(1)],
            data: vec![],
            from_address: felt(0xa),
            transaction_hash: felt(0x40),
        },
        EventWrapper {
            keys: vec![felt(2)],
            data: vec![felt(3)],
            from_address: felt(0xb),
            transaction_hash: felt(0x40),
        },
    ];
    let r = receipt.into_maybe_pending_transaction_receipt(RPCTransactionStatus::AcceptedOnL2);
    match r {
        RPCMaybePendingTransactionReceipt::Receipt(RPCTransactionReceipt::Invoke(rc)) => {
            assert_eq!(rc.events.len(), 2);
            assert_eq!(rc.events[0].keys, vec![felt(1)]);
            assert_eq!(rc.events[0].from_address, felt(0xa));
            assert_eq!(rc.events[1].keys, vec![felt(2)]);
            assert_eq!(rc.events[1].data, vec![felt(3)]);
            assert_eq!(rc.events[1].from_address, felt(0xb));
        }
        other => panic!("wrong receipt sub-kind: {:?}", other),
    }
}

#[test]
fn deploy_account_receipt_carries_deployed_address() {
    let r = sample_receipt(TxType::DeployAccount)
        .into_maybe_pending_transaction_receipt(RPCTransactionStatus::Rejected);
    match r {
        RPCMaybePendingTransactionReceipt::Receipt(RPCTransactionReceipt::DeployAccount(rc)) => {
            assert_eq!(rc.contract_address, felt(0xde9107ed));
            assert_eq!(rc.status, RPCTransactionStatus::Rejected);
        }
        other => panic!("wrong receipt sub-kind: {:?}", other),
    }
}
