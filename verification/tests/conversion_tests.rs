use mp_starknet::execution::{CallEntryPointWrapper, ContractClassWrapper, EntryPointTypeWrapper};
use mp_starknet::felt::{Felt252Wrapper, U256Wrapper};
use mp_starknet::transaction::{
    DeclareTransaction, DeployAccountTransaction, InvokeTransaction, Transaction,
    TransactionConversionError, TxType,
};

fn felt(x: u64) -> Felt252Wrapper {
    Felt252Wrapper::from_u64(x)
}

fn sample_invoke() -> InvokeTransaction {
    InvokeTransaction {
        version: 1,
        sender_address: felt(0x111),
        calldata: vec![felt(1), felt(2), felt(3)],
        nonce: felt(7),
        signature: vec![felt(0xaa), felt(0xbb)],
        max_fee: felt(50_000),
    }
}

fn sample_declare() -> DeclareTransaction {
    DeclareTransaction {
        version: 2,
        sender_address: felt(0x222),
        compiled_class_hash: felt(0xc1a55),
        contract_class: ContractClassWrapper { program: vec![felt(9), felt(8)] },
        nonce: felt(3),
        signature: vec![felt(0xcc)],
        max_fee: felt(1_000),
    }
}

fn sample_deploy() -> DeployAccountTransaction {
    DeployAccountTransaction {
        version: 1,
        sender_address: felt(0x333),
        calldata: vec![felt(4), felt(5)],
        nonce: felt(0),
        salt: U256Wrapper { hi: 0, lo: 0x5a17 },
        signature: vec![],
        account_class_hash: felt(0xacc),
        max_fee: felt(77),
    }
}

#[test]
fn invoke_round_trips_through_canonical() {
    let v = sample_invoke();
    let tx = v.clone().from_invoke("SN_TEST");
    assert_eq!(tx.tx_type, TxType::Invoke);
    assert_eq!(InvokeTransaction::from(tx), v);
}

#[test]
fn declare_round_trips_through_canonical() {
    let v = sample_declare();
    let tx = v.clone().from_declare("SN_TEST");
    assert_eq!(tx.tx_type, TxType::Declare);
    assert_eq!(tx.call_entrypoint.class_hash, Some(v.compiled_class_hash));
    assert_eq!(tx.contract_class.as_ref(), Some(&v.contract_class));
    assert_eq!(DeclareTransaction::try_from(tx).unwrap(), v);
}

#[test]
fn deploy_account_round_trips_through_canonical() {
    let v = sample_deploy();
    let tx = v.clone().from_deploy("SN_TEST");
    assert_eq!(tx.tx_type, TxType::DeployAccount);
    assert_eq!(tx.contract_address_salt, Some(v.salt));
    assert_eq!(DeployAccountTransaction::try_from(tx).unwrap(), v);
}

#[test]
fn upcast_populates_call_descriptor_by_kind() {
    let invoke_tx = sample_invoke().from_invoke("SN_TEST");
    assert_eq!(invoke_tx.call_entrypoint.class_hash, None);
    assert_eq!(invoke_tx.call_entrypoint.calldata, vec![felt(1), felt(2), felt(3)]);
    assert_eq!(invoke_tx.contract_class, None);
    assert_eq!(invoke_tx.contract_address_salt, None);

    let declare_tx = sample_declare().from_declare("SN_TEST");
    assert!(declare_tx.call_entrypoint.calldata.is_empty());
    assert_eq!(declare_tx.call_entrypoint.caller_address, felt(0x222));
    assert_eq!(declare_tx.call_entrypoint.storage_address, felt(0x222));
    assert_eq!(declare_tx.contract_address_salt, None);

    let deploy_tx = sample_deploy().from_deploy("SN_TEST");
    assert_eq!(deploy_tx.call_entrypoint.class_hash, Some(felt(0xacc)));
    assert_eq!(deploy_tx.call_entrypoint.calldata, vec![felt(4), felt(5)]);
    assert_eq!(deploy_tx.contract_class, None);
}

/// A canonical transaction of the declare kind, built field by field so
/// that required parts can be left out.
fn canonical_declare(
    class_hash: Option<Felt252Wrapper>,
    contract_class: Option<ContractClassWrapper>,
) -> Transaction {
    Transaction {
        tx_type: TxType::Declare,
        version: 1,
        hash: felt(0xabcdef),
        signature: vec![felt(1)],
        sender_address: felt(0x444),
        nonce: felt(2),
        call_entrypoint: CallEntryPointWrapper::new(
            class_hash,
            EntryPointTypeWrapper::External,
            None,
            Vec::new(),
            felt(0x444),
            felt(0x444),
        ),
        contract_class,
        contract_address_salt: None,
        max_fee: felt(10),
    }
}

#[test]
fn declare_downcast_missing_class_hash_is_rejected() {
    let tx = canonical_declare(None, Some(ContractClassWrapper { program: vec![] }));
    let r = DeclareTransaction::try_from(tx);
    // Never a silently zero-valued hash: the downcast fails outright.
    assert_eq!(r, Err(TransactionConversionError::MissingClassHash));
}

#[test]
fn declare_downcast_missing_class_is_rejected() {
    let tx = canonical_declare(Some(felt(0xc1a55)), None);
    assert_eq!(
        DeclareTransaction::try_from(tx),
        Err(TransactionConversionError::MissingClass)
    );
}

#[test]
fn declare_downcast_reports_missing_class_first() {
    let tx = canonical_declare(None, None);
    assert_eq!(
        DeclareTransaction::try_from(tx),
        Err(TransactionConversionError::MissingClass)
    );
}

#[test]
fn deploy_downcast_missing_class_hash_is_rejected() {
    let mut tx = canonical_declare(None, None);
    tx.tx_type = TxType::DeployAccount;
    assert_eq!(
        DeployAccountTransaction::try_from(tx),
        Err(TransactionConversionError::MissingClassHash)
    );
}

#[test]
fn deploy_downcast_defaults_missing_salt_to_zero() {
    let mut tx = canonical_declare(Some(felt(0xacc)), None);
    tx.tx_type = TxType::DeployAccount;
    tx.contract_address_salt = None;
    let d = DeployAccountTransaction::try_from(tx).unwrap();
    assert_eq!(d.salt, U256Wrapper { hi: 0, lo: 0 });
    assert_eq!(d.account_class_hash, felt(0xacc));
}

#[test]
fn hash_is_deterministic_across_calls() {
    let a = sample_invoke().from_invoke("SN_TEST").hash;
    let b = sample_invoke().from_invoke("SN_TEST").hash;
    assert_eq!(a, b);
    let c = sample_declare().from_declare("SN_TEST").hash;
    let d = sample_declare().from_declare("SN_TEST").hash;
    assert_eq!(c, d);
    let e = sample_deploy().from_deploy("SN_TEST").hash;
    let f = sample_deploy().from_deploy("SN_TEST").hash;
    assert_eq!(e, f);
}

#[test]
fn hash_changes_with_every_single_field_of_an_invoke() {
    let base = sample_invoke().from_invoke("SN_TEST").hash;

    let mut v = sample_invoke();
    v.version = 0;
    assert_ne!(v.from_invoke("SN_TEST").hash, base);

    let mut v = sample_invoke();
    v.sender_address = felt(0x112);
    assert_ne!(v.from_invoke("SN_TEST").hash, base);

    let mut v = sample_invoke();
    v.calldata = vec![felt(1), felt(2)];
    assert_ne!(v.from_invoke("SN_TEST").hash, base);

    let mut v = sample_invoke();
    v.nonce = felt(8);
    assert_ne!(v.from_invoke("SN_TEST").hash, base);

    let mut v = sample_invoke();
    v.signature = vec![felt(0xaa)];
    assert_ne!(v.from_invoke("SN_TEST").hash, base);

    let mut v = sample_invoke();
    v.max_fee = felt(50_001);
    assert_ne!(v.from_invoke("SN_TEST").hash, base);

    assert_ne!(sample_invoke().from_invoke("SN_MAIN").hash, base);
}

#[test]
fn hash_changes_with_declare_class_fields() {
    let base = sample_declare().from_declare("SN_TEST").hash;

    let mut v = sample_declare();
    v.compiled_class_hash = felt(0xc1a56);
    assert_ne!(v.from_declare("SN_TEST").hash, base);

    let mut v = sample_declare();
    v.contract_class = ContractClassWrapper { program: vec![felt(9)] };
    assert_ne!(v.from_declare("SN_TEST").hash, base);
}

#[test]
fn hash_changes_with_deploy_salt() {
    let base = sample_deploy().from_deploy("SN_TEST").hash;
    let mut v = sample_deploy();
    v.salt = U256Wrapper { hi: 1, lo: 0x5a17 };
    assert_ne!(v.from_deploy("SN_TEST").hash, base);
    assert_ne!(base, felt(0));
}

#[test]
fn kinds_with_equal_fields_hash_apart() {
    // An invoke and a deploy with overlapping field values still commit
    // to different hashes through their kind prefix.
    let invoke = InvokeTransaction {
        version: 1,
        sender_address: felt(0x1),
        calldata: vec![],
        nonce: felt(0),
        signature: vec![],
        max_fee: felt(0),
    }
    .from_invoke("SN_TEST")
    .hash;
    let declare = DeclareTransaction {
        version: 1,
        sender_address: felt(0x1),
        compiled_class_hash: felt(0),
        contract_class: ContractClassWrapper { program: vec![] },
        nonce: felt(0),
        signature: vec![],
        max_fee: felt(0),
    }
    .from_declare("SN_TEST")
    .hash;
    assert_ne!(invoke, declare);
}
