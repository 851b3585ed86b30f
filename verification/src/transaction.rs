//! The canonical transaction, the three concrete transaction kinds, and the
//! conversions between them: upcasts that always succeed and compute the
//! hash, and downcasts that fail when a required field is absent.

use vstd::prelude::*;

use crate::commitment::{
    calculate_declare_tx_hash, calculate_deploy_account_tx_hash, calculate_invoke_tx_hash,
    bytes_be_value, spec_declare_hash, spec_deploy_account_hash, spec_invoke_hash,
};
use crate::execution::{
    CallEntryPointModel, CallEntryPointWrapper, ContractAddressWrapper, ContractClassWrapper,
    EntryPointTypeWrapper, MAX_ARRAY_SIZE,
};
use crate::felt::{felt_views, Felt252Wrapper, U256Wrapper};
use vstd::string::StringSliceAdditionalSpecFns;

verus! {

/// The closed set of transaction kinds.
#[derive(Clone, Copy, Debug, PartialEq, Eq, Structural, Hash)]
pub enum TxType {
    /// Regular invoke transaction.
    Invoke,
    /// Declare transaction.
    Declare,
    /// Deploy account transaction.
    DeployAccount,
    /// Message sent from L1.
    L1Handler,
}

/// The mathematical content of a canonical transaction.
#[verifier::ext_equal]
pub struct TransactionModel {
    /// The kind of the transaction.
    pub tx_type: TxType,
    /// The declared version.
    pub version: int,
    /// The transaction hash, set at upcast time.
    pub hash: int,
    /// The signature.
    pub signature: Seq<int>,
    /// The sender address.
    pub sender_address: int,
    /// The account nonce.
    pub nonce: int,
    /// The call descriptor.
    pub call_entrypoint: CallEntryPointModel,
    /// The declared contract class, present only for Declare.
    pub contract_class: Option<Seq<int>>,
    /// The deployment salt, present only for DeployAccount.
    pub contract_address_salt: Option<int>,
    /// The largest fee the sender accepts.
    pub max_fee: int,
}

/// A canonical transaction: the single representation able to express any
/// of the four kinds. Created only by upcasting a concrete kind, and
/// immutable once created.
#[derive(Clone, Debug, PartialEq, Eq)]
pub struct Transaction {
    /// The kind of the transaction.
    pub tx_type: TxType,
    /// The declared version.
    pub version: u8,
    /// The transaction hash, set at upcast time.
    pub hash: Felt252Wrapper,
    /// The signature.
    pub signature: Vec<Felt252Wrapper>,
    /// The sender address.
    pub sender_address: ContractAddressWrapper,
    /// The account nonce.
    pub nonce: Felt252Wrapper,
    /// The call descriptor.
    pub call_entrypoint: CallEntryPointWrapper,
    /// The declared contract class, present only for Declare.
    pub contract_class: Option<ContractClassWrapper>,
    /// The deployment salt, present only for DeployAccount.
    pub contract_address_salt: Option<U256Wrapper>,
    /// The largest fee the sender accepts.
    pub max_fee: Felt252Wrapper,
}

impl View for Transaction {
    type V = TransactionModel;

    open spec fn view(&self) -> TransactionModel {
        TransactionModel {
            tx_type: self.tx_type,
            version: self.version as int,
            hash: self.hash@,
            signature: felt_views(self.signature@),
            sender_address: self.sender_address@,
            nonce: self.nonce@,
            call_entrypoint: self.call_entrypoint@,
            contract_class: match self.contract_class {
                Some(c) => Some(c@),
                None => None,
            },
            contract_address_salt: match self.contract_address_salt {
                Some(s) => Some(s@),
                None => None,
            },
            max_fee: self.max_fee@,
        }
    }
}

impl Transaction {
    /// All held field elements lie in the field and the bounded sequences
    /// respect their caps. Enforced at the ingestion boundary, propagated
    /// structurally here.
    pub open spec fn wf(&self) -> bool {
        &&& self.hash.valid()
        &&& forall|i: int|
            0 <= i < self.signature@.len() ==> (#[trigger] self.signature@[i]).valid()
        &&& self.signature@.len() <= MAX_ARRAY_SIZE
        &&& self.sender_address.valid()
        &&& self.nonce.valid()
        &&& self.call_entrypoint.wf()
        &&& (self.contract_class matches Some(c) ==> c.wf())
        &&& self.max_fee.valid()
    }
}

/// The canonical field-population invariant: which optional fields are
/// present is determined by the kind.
pub open spec fn canonical_form(t: TransactionModel) -> bool {
    &&& t.contract_class is Some <==> t.tx_type == TxType::Declare
    &&& t.contract_address_salt is Some <==> t.tx_type == TxType::DeployAccount
    &&& t.call_entrypoint.class_hash is Some <==> (t.tx_type == TxType::Declare
        || t.tx_type == TxType::DeployAccount)
}

/// The mathematical content of a declare transaction.
#[verifier::ext_equal]
pub struct DeclareModel {
    /// The declared version.
    pub version: int,
    /// The sender address.
    pub sender_address: int,
    /// Hash of the compiled class to declare.
    pub compiled_class_hash: int,
    /// The contract class to declare.
    pub contract_class: Seq<int>,
    /// The account nonce.
    pub nonce: int,
    /// The signature.
    pub signature: Seq<int>,
    /// The largest fee the sender accepts.
    pub max_fee: int,
}

/// A declare transaction: it carries the class to declare and that class's
/// compiled hash.
#[derive(Clone, Debug, PartialEq, Eq, Default)]
pub struct DeclareTransaction {
    /// The declared version.
    pub version: u8,
    /// The sender address.
    pub sender_address: ContractAddressWrapper,
    /// Hash of the compiled class to declare.
    pub compiled_class_hash: Felt252Wrapper,
    /// The contract class to declare.
    pub contract_class: ContractClassWrapper,
    /// The account nonce.
    pub nonce: Felt252Wrapper,
    /// The signature.
    pub signature: Vec<Felt252Wrapper>,
    /// The largest fee the sender accepts.
    pub max_fee: Felt252Wrapper,
}

impl View for DeclareTransaction {
    type V = DeclareModel;

    open spec fn view(&self) -> DeclareModel {
        DeclareModel {
            version: self.version as int,
            sender_address: self.sender_address@,
            compiled_class_hash: self.compiled_class_hash@,
            contract_class: self.contract_class@,
            nonce: self.nonce@,
            signature: felt_views(self.signature@),
            max_fee: self.max_fee@,
        }
    }
}

impl DeclareTransaction {
    /// All held field elements lie in the field and the signature respects
    /// its cap.
    pub open spec fn wf(&self) -> bool {
        &&& self.sender_address.valid()
        &&& self.compiled_class_hash.valid()
        &&& self.contract_class.wf()
        &&& self.nonce.valid()
        &&& forall|i: int|
            0 <= i < self.signature@.len() ==> (#[trigger] self.signature@[i]).valid()
        &&& self.signature@.len() <= MAX_ARRAY_SIZE
        &&& self.max_fee.valid()
    }
}

/// The mathematical content of a deploy-account transaction.
#[verifier::ext_equal]
pub struct DeployAccountModel {
    /// The declared version.
    pub version: int,
    /// The sender address.
    pub sender_address: int,
    /// Constructor arguments.
    pub calldata: Seq<int>,
    /// The account nonce.
    pub nonce: int,
    /// The deployment salt.
    pub salt: int,
    /// The signature.
    pub signature: Seq<int>,
    /// Hash of the account class.
    pub account_class_hash: int,
    /// The largest fee the sender accepts.
    pub max_fee: int,
}

/// A deploy-account transaction: it deploys an account contract of a known
/// class under a salted address.
#[derive(Clone, Debug, PartialEq, Eq, Default)]
pub struct DeployAccountTransaction {
    /// The declared version.
    pub version: u8,
    /// The sender address.
    pub sender_address: ContractAddressWrapper,
    /// Constructor arguments.
    pub calldata: Vec<Felt252Wrapper>,
    /// The account nonce.
    pub nonce: Felt252Wrapper,
    /// The deployment salt.
    pub salt: U256Wrapper,
    /// The signature.
    pub signature: Vec<Felt252Wrapper>,
    /// Hash of the account class.
    pub account_class_hash: Felt252Wrapper,
    /// The largest fee the sender accepts.
    pub max_fee: Felt252Wrapper,
}

impl View for DeployAccountTransaction {
    type V = DeployAccountModel;

    open spec fn view(&self) -> DeployAccountModel {
        DeployAccountModel {
            version: self.version as int,
            sender_address: self.sender_address@,
            calldata: felt_views(self.calldata@),
            nonce: self.nonce@,
            salt: self.salt@,
            signature: felt_views(self.signature@),
            account_class_hash: self.account_class_hash@,
            max_fee: self.max_fee@,
        }
    }
}

impl DeployAccountTransaction {
    /// All held field elements lie in the field and the bounded sequences
    /// respect their caps.
    pub open spec fn wf(&self) -> bool {
        &&& self.sender_address.valid()
        &&& forall|i: int|
            0 <= i < self.calldata@.len() ==> (#[trigger] self.calldata@[i]).valid()
        &&& self.calldata@.len() <= crate::execution::MAX_CALLDATA_SIZE
        &&& self.nonce.valid()
        &&& forall|i: int|
            0 <= i < self.signature@.len() ==> (#[trigger] self.signature@[i]).valid()
        &&& self.signature@.len() <= MAX_ARRAY_SIZE
        &&& self.account_class_hash.valid()
        &&& self.max_fee.valid()
    }
}

/// The mathematical content of an invoke transaction.
#[verifier::ext_equal]
pub struct InvokeModel {
    /// The declared version.
    pub version: int,
    /// The sender address.
    pub sender_address: int,
    /// Call arguments.
    pub calldata: Seq<int>,
    /// The account nonce.
    pub nonce: int,
    /// The signature.
    pub signature: Seq<int>,
    /// The largest fee the sender accepts.
    pub max_fee: int,
}

/// An invoke transaction: a regular contract call from an account.
#[derive(Clone, Debug, PartialEq, Eq, Default)]
pub struct InvokeTransaction {
    /// The declared version.
    pub version: u8,
    /// The sender address.
    pub sender_address: ContractAddressWrapper,
    /// Call arguments.
    pub calldata: Vec<Felt252Wrapper>,
    /// The account nonce.
    pub nonce: Felt252Wrapper,
    /// The signature.
    pub signature: Vec<Felt252Wrapper>,
    /// The largest fee the sender accepts.
    pub max_fee: Felt252Wrapper,
}

impl View for InvokeTransaction {
    type V = InvokeModel;

    open spec fn view(&self) -> InvokeModel {
        InvokeModel {
            version: self.version as int,
            sender_address: self.sender_address@,
            calldata: felt_views(self.calldata@),
            nonce: self.nonce@,
            signature: felt_views(self.signature@),
            max_fee: self.max_fee@,
        }
    }
}

impl InvokeTransaction {
    /// All held field elements lie in the field and the bounded sequences
    /// respect their caps.
    pub open spec fn wf(&self) -> bool {
        &&& self.sender_address.valid()
        &&& forall|i: int|
            0 <= i < self.calldata@.len() ==> (#[trigger] self.calldata@[i]).valid()
        &&& self.calldata@.len() <= crate::execution::MAX_CALLDATA_SIZE
        &&& self.nonce.valid()
        &&& forall|i: int|
            0 <= i < self.signature@.len() ==> (#[trigger] self.signature@[i]).valid()
        &&& self.signature@.len() <= MAX_ARRAY_SIZE
        &&& self.max_fee.valid()
    }
}

/// Failure kinds of downcasting a canonical transaction to a concrete
/// kind. Recoverable: the caller may choose another representation or
/// reject the transaction.
#[derive(Clone, Copy, Debug, PartialEq, Eq, Structural)]
pub enum TransactionConversionError {
    /// The call descriptor's target class hash is absent.
    MissingClassHash,
    /// The declared contract class is absent.
    MissingClass,
}

/// The canonical form a declare transaction upcasts to.
pub open spec fn spec_normalize_declare(v: DeclareModel, chain: int) -> TransactionModel {
    TransactionModel {
        tx_type: TxType::Declare,
        version: v.version,
        hash: spec_declare_hash(v, chain),
        signature: v.signature,
        sender_address: v.sender_address,
        nonce: v.nonce,
        call_entrypoint: CallEntryPointModel {
            class_hash: Some(v.compiled_class_hash),
            entrypoint_type: EntryPointTypeWrapper::External,
            entrypoint_selector: None,
            calldata: Seq::empty(),
            storage_address: v.sender_address,
            caller_address: v.sender_address,
        },
        contract_class: Some(v.contract_class),
        contract_address_salt: None,
        max_fee: v.max_fee,
    }
}

/// The canonical form a deploy-account transaction upcasts to.
pub open spec fn spec_normalize_deploy_account(v: DeployAccountModel, chain: int)
    -> TransactionModel {
    TransactionModel {
        tx_type: TxType::DeployAccount,
        version: v.version,
        hash: spec_deploy_account_hash(v, chain),
        signature: v.signature,
        sender_address: v.sender_address,
        nonce: v.nonce,
        call_entrypoint: CallEntryPointModel {
            class_hash: Some(v.account_class_hash),
            entrypoint_type: EntryPointTypeWrapper::External,
            entrypoint_selector: None,
            calldata: v.calldata,
            storage_address: v.sender_address,
            caller_address: v.sender_address,
        },
        contract_class: None,
        contract_address_salt: Some(v.salt),
        max_fee: v.max_fee,
    }
}

/// The canonical form an invoke transaction upcasts to.
pub open spec fn spec_normalize_invoke(v: InvokeModel, chain: int) -> TransactionModel {
    TransactionModel {
        tx_type: TxType::Invoke,
        version: v.version,
        hash: spec_invoke_hash(v, chain),
        signature: v.signature,
        sender_address: v.sender_address,
        nonce: v.nonce,
        call_entrypoint: CallEntryPointModel {
            class_hash: None,
            entrypoint_type: EntryPointTypeWrapper::External,
            entrypoint_selector: None,
            calldata: v.calldata,
            storage_address: v.sender_address,
            caller_address: v.sender_address,
        },
        contract_class: None,
        contract_address_salt: None,
        max_fee: v.max_fee,
    }
}

/// What downcasting a canonical transaction to a declare transaction
/// yields: the class payload is demanded first, the class hash second.
pub open spec fn spec_extract_declare(t: TransactionModel)
    -> Result<DeclareModel, TransactionConversionError> {
    if t.contract_class is None {
        Err(TransactionConversionError::MissingClass)
    } else if t.call_entrypoint.class_hash is None {
        Err(TransactionConversionError::MissingClassHash)
    } else {
        Ok(DeclareModel {
            version: t.version,
            sender_address: t.sender_address,
            compiled_class_hash: t.call_entrypoint.class_hash->0,
            contract_class: t.contract_class->0,
            nonce: t.nonce,
            signature: t.signature,
            max_fee: t.max_fee,
        })
    }
}

/// What downcasting a canonical transaction to a deploy-account
/// transaction yields: an absent salt defaults to zero, by policy; only a
/// missing class hash fails.
pub open spec fn spec_extract_deploy_account(t: TransactionModel)
    -> Result<DeployAccountModel, TransactionConversionError> {
    if t.call_entrypoint.class_hash is None {
        Err(TransactionConversionError::MissingClassHash)
    } else {
        Ok(DeployAccountModel {
            version: t.version,
            sender_address: t.sender_address,
            calldata: t.call_entrypoint.calldata,
            nonce: t.nonce,
            salt: match t.contract_address_salt {
                Some(s) => s,
                None => 0,
            },
            signature: t.signature,
            account_class_hash: t.call_entrypoint.class_hash->0,
            max_fee: t.max_fee,
        })
    }
}

/// What downcasting a canonical transaction to an invoke transaction
/// yields: unconditional, since an invoke carries no field that can be
/// structurally absent.
pub open spec fn spec_extract_invoke(t: TransactionModel) -> InvokeModel {
    InvokeModel {
        version: t.version,
        sender_address: t.sender_address,
        calldata: t.call_entrypoint.calldata,
        nonce: t.nonce,
        signature: t.signature,
        max_fee: t.max_fee,
    }
}

impl DeclareTransaction {
    /// Upcasts to the canonical representation. Always succeeds; computes
    /// the hash from the transaction's content and the chain identifier.
    pub fn from_declare(self, chain_id: &str) -> (r: Transaction)
        requires
            self.wf(),
            chain_id.spec_bytes().len() <= 31,
        ensures
            r@ == spec_normalize_declare(self@, bytes_be_value(chain_id.spec_bytes())),
            r.wf(),
            canonical_form(r@),
    {
        let hash = calculate_declare_tx_hash(&self, chain_id);
        let r = Transaction {
            tx_type: TxType::Declare,
            version: self.version,
            hash,
            signature: self.signature,
            sender_address: self.sender_address,
            nonce: self.nonce,
            call_entrypoint: CallEntryPointWrapper::new(
                Some(self.compiled_class_hash),
                EntryPointTypeWrapper::External,
                None,
                Vec::new(),
                self.sender_address,
                self.sender_address,
            ),
            contract_class: Some(self.contract_class),
            contract_address_salt: None,
            max_fee: self.max_fee,
        };
        proof {
            assert(felt_views(Seq::<Felt252Wrapper>::empty()) =~= Seq::<int>::empty());
            assert(r@ =~~= spec_normalize_declare(self@, bytes_be_value(chain_id.spec_bytes())));
        }
        r
    }

    /// Downcasts a canonical transaction to a declare transaction; fails
    /// when the class payload or the class hash is absent.
    pub fn try_from(value: Transaction) -> (r: Result<Self, TransactionConversionError>)
        ensures
            (match r {
                Ok(d) => spec_extract_declare(value@) == Ok::<DeclareModel,
                    TransactionConversionError>(d@) && (value.wf() ==> d.wf()),
                Err(e) => spec_extract_declare(value@) == Err::<DeclareModel,
                    TransactionConversionError>(e),
            }),
    {
        let contract_class = match value.contract_class {
            Some(c) => c,
            None => {
                return Err(TransactionConversionError::MissingClass);
            },
        };
        let compiled_class_hash = match value.call_entrypoint.class_hash {
            Some(h) => h,
            None => {
                return Err(TransactionConversionError::MissingClassHash);
            },
        };
        let d = DeclareTransaction {
            version: value.version,
            signature: value.signature,
            sender_address: value.sender_address,
            nonce: value.nonce,
            contract_class,
            compiled_class_hash,
            max_fee: value.max_fee,
        };
        proof {
            assert(spec_extract_declare(value@)->Ok_0 =~~= d@);
        }
        Ok(d)
    }
}

impl DeployAccountTransaction {
    /// Upcasts to the canonical representation. Always succeeds; computes
    /// the hash from the transaction's content and the chain identifier.
    pub fn from_deploy(self, chain_id: &str) -> (r: Transaction)
        requires
            self.wf(),
            chain_id.spec_bytes().len() <= 31,
        ensures
            r@ == spec_normalize_deploy_account(self@, bytes_be_value(chain_id.spec_bytes())),
            r.wf(),
            canonical_form(r@),
    {
        let hash = calculate_deploy_account_tx_hash(&self, chain_id);
        let r = Transaction {
            tx_type: TxType::DeployAccount,
            version: self.version,
            hash,
            signature: self.signature,
            sender_address: self.sender_address,
            nonce: self.nonce,
            call_entrypoint: CallEntryPointWrapper::new(
                Some(self.account_class_hash),
                EntryPointTypeWrapper::External,
                None,
                self.calldata,
                self.sender_address,
                self.sender_address,
            ),
            contract_class: None,
            contract_address_salt: Some(self.salt),
            max_fee: self.max_fee,
        };
        proof {
            assert(r@ =~~= spec_normalize_deploy_account(
                self@,
                bytes_be_value(chain_id.spec_bytes()),
            ));
        }
        r
    }

    /// Downcasts a canonical transaction to a deploy-account transaction;
    /// fails when the class hash is absent. An absent salt defaults to
    /// zero, by policy.
    pub fn try_from(value: Transaction) -> (r: Result<Self, TransactionConversionError>)
        ensures
            (match r {
                Ok(d) => spec_extract_deploy_account(value@) == Ok::<DeployAccountModel,
                    TransactionConversionError>(d@) && (value.wf() ==> d.wf()),
                Err(e) => spec_extract_deploy_account(value@) == Err::<DeployAccountModel,
                    TransactionConversionError>(e),
            }),
    {
        let account_class_hash = match value.call_entrypoint.class_hash {
            Some(h) => h,
            None => {
                return Err(TransactionConversionError::MissingClassHash);
            },
        };
        let salt = match value.contract_address_salt {
            Some(s) => s,
            None => U256Wrapper::zero(),
        };
        let d = DeployAccountTransaction {
            version: value.version,
            signature: value.signature,
            sender_address: value.sender_address,
            nonce: value.nonce,
            calldata: value.call_entrypoint.calldata,
            salt,
            account_class_hash,
            max_fee: value.max_fee,
        };
        proof {
            assert(spec_extract_deploy_account(value@)->Ok_0 =~~= d@);
        }
        Ok(d)
    }
}

impl InvokeTransaction {
    /// Upcasts to the canonical representation. Always succeeds; computes
    /// the hash from the transaction's content and the chain identifier.
    pub fn from_invoke(self, chain_id: &str) -> (r: Transaction)
        requires
            self.wf(),
            chain_id.spec_bytes().len() <= 31,
        ensures
            r@ == spec_normalize_invoke(self@, bytes_be_value(chain_id.spec_bytes())),
            r.wf(),
            canonical_form(r@),
    {
        let hash = calculate_invoke_tx_hash(&self, chain_id);
        let r = Transaction {
            tx_type: TxType::Invoke,
            version: self.version,
            hash,
            signature: self.signature,
            sender_address: self.sender_address,
            nonce: self.nonce,
            call_entrypoint: CallEntryPointWrapper::new(
                None,
                EntryPointTypeWrapper::External,
                None,
                self.calldata,
                self.sender_address,
                self.sender_address,
            ),
            contract_class: None,
            contract_address_salt: None,
            max_fee: self.max_fee,
        };
        proof {
            assert(r@ =~~= spec_normalize_invoke(self@, bytes_be_value(chain_id.spec_bytes())));
        }
        r
    }

    /// Downcasts a canonical transaction to an invoke transaction. No
    /// failure path: an invoke carries no field that can be structurally
    /// absent.
    pub fn from(value: Transaction) -> (r: Self)
        ensures
            r@ == spec_extract_invoke(value@),
            value.wf() ==> r.wf(),
    {
        let r = InvokeTransaction {
            version: value.version,
            signature: value.signature,
            sender_address: value.sender_address,
            nonce: value.nonce,
            calldata: value.call_entrypoint.calldata,
            max_fee: value.max_fee,
        };
        proof {
            assert(r@ =~~= spec_extract_invoke(value@));
        }
        r
    }
}

/// Law: downcasting an upcast invoke transaction reproduces the variant
/// exactly, for every variant and chain identifier; the derived hash is
/// the only field the round trip adds and forgets.
pub proof fn lemma_invoke_round_trip(v: InvokeModel, chain: int)
    ensures
        spec_extract_invoke(spec_normalize_invoke(v, chain)) == v,
{
    assert(spec_extract_invoke(spec_normalize_invoke(v, chain)) =~~= v);
}

/// Law: upcasting a declare transaction always succeeds (it is total by
/// its type), and downcasting the result always succeeds and reproduces
/// the variant exactly, the declared class and class hash included.
pub proof fn lemma_declare_round_trip(v: DeclareModel, chain: int)
    ensures
        spec_extract_declare(spec_normalize_declare(v, chain)) == Ok::<DeclareModel,
            TransactionConversionError>(v),
{
    assert(spec_extract_declare(spec_normalize_declare(v, chain))->Ok_0 =~~= v);
}

/// Law: downcasting an upcast deploy-account transaction always succeeds
/// and reproduces the variant exactly, the salt included.
pub proof fn lemma_deploy_account_round_trip(v: DeployAccountModel, chain: int)
    ensures
        spec_extract_deploy_account(spec_normalize_deploy_account(v, chain))
            == Ok::<DeployAccountModel, TransactionConversionError>(v),
{
    assert(spec_extract_deploy_account(spec_normalize_deploy_account(v, chain))->Ok_0 =~~= v);
}

/// Law: on a canonical transaction of the declare kind whose class hash is
/// absent, the declare downcast fails with `MissingClassHash`. The class
/// payload must be present: when it too is absent, its failure is the one
/// reported.
pub proof fn lemma_extract_declare_missing_class_hash(t: TransactionModel)
    requires
        t.tx_type == TxType::Declare,
        t.call_entrypoint.class_hash is None,
        t.contract_class is Some,
    ensures
        spec_extract_declare(t) == Err::<DeclareModel, TransactionConversionError>(
            TransactionConversionError::MissingClassHash,
        ),
{
}

/// Law: on a canonical transaction of the declare kind whose class payload
/// is absent, the declare downcast fails with `MissingClass`.
pub proof fn lemma_extract_declare_missing_class(t: TransactionModel)
    requires
        t.tx_type == TxType::Declare,
        t.contract_class is None,
    ensures
        spec_extract_declare(t) == Err::<DeclareModel, TransactionConversionError>(
            TransactionConversionError::MissingClass,
        ),
{
}

/// Law: the derived hash is a pure function of the variant's content and
/// the chain identifier; upcasting equal variants under equal chain
/// identifiers yields equal hashes, in any two calls.
pub proof fn lemma_invoke_hash_deterministic(v1: InvokeModel, v2: InvokeModel, c1: int, c2: int)
    requires
        v1 == v2,
        c1 == c2,
    ensures
        spec_normalize_invoke(v1, c1).hash == spec_normalize_invoke(v2, c2).hash,
{
}

/// Law: the declare hash is a pure function of the variant's content and
/// the chain identifier.
pub proof fn lemma_declare_hash_deterministic(v1: DeclareModel, v2: DeclareModel, c1: int, c2: int)
    requires
        v1 == v2,
        c1 == c2,
    ensures
        spec_normalize_declare(v1, c1).hash == spec_normalize_declare(v2, c2).hash,
{
}

/// Law: the deploy-account hash is a pure function of the variant's
/// content and the chain identifier.
pub proof fn lemma_deploy_account_hash_deterministic(
    v1: DeployAccountModel,
    v2: DeployAccountModel,
    c1: int,
    c2: int,
)
    requires
        v1 == v2,
        c1 == c2,
    ensures
        spec_normalize_deploy_account(v1, c1).hash == spec_normalize_deploy_account(v2, c2).hash,
{
}

} // verus!
