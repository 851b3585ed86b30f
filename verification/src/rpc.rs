//! The outward projection: from the canonical transaction to the public
//! query representation, dispatched first on kind, then on declared
//! version. Every field extraction is individually fallible and the first
//! failure short-circuits the projection.

use vstd::prelude::*;

use crate::felt::{felt252_prime, felt_views, Felt252Wrapper, Felt252WrapperError};
use crate::transaction::{spec_normalize_invoke, InvokeModel, Transaction, TransactionModel,
    TxType};

verus! {

/// Failure kinds of projecting a canonical transaction outward. The
/// numeric-conversion kinds are surfaced verbatim to the query caller.
#[derive(Clone, Copy, Debug, PartialEq, Eq, Structural)]
pub enum RPCTransactionConversionError {
    /// The stored version matches no public sub-kind.
    UnknownVersion,
    /// A field the public sub-kind requires is absent.
    MissingInformation,
    /// Conversion from a byte array has failed.
    FromArrayError,
    /// A provided byte array has an incorrect length.
    InvalidLength,
    /// Invalid character in a hex string.
    InvalidCharacter,
    /// Value is too large for the 252-bit field.
    OutOfRange,
    /// Value is too large to fit into the target type.
    ValueTooLarge,
}

/// The total mapping from field-element narrowing failures to projection
/// failures, kind for kind.
pub open spec fn spec_felt_error_to_rpc(v: Felt252WrapperError) -> RPCTransactionConversionError {
    match v {
        Felt252WrapperError::FromArrayError => RPCTransactionConversionError::FromArrayError,
        Felt252WrapperError::InvalidLength => RPCTransactionConversionError::InvalidLength,
        Felt252WrapperError::InvalidCharacter => RPCTransactionConversionError::InvalidCharacter,
        Felt252WrapperError::OutOfRange => RPCTransactionConversionError::OutOfRange,
        Felt252WrapperError::ValueTooLarge => RPCTransactionConversionError::ValueTooLarge,
    }
}

impl From<Felt252WrapperError> for RPCTransactionConversionError {
    /// Maps a narrowing failure into the projection's own closed error
    /// set, without losing its kind.
    fn from(value: Felt252WrapperError) -> (r: Self) {
        match value {
            Felt252WrapperError::FromArrayError => Self::FromArrayError,
            Felt252WrapperError::InvalidLength => Self::InvalidLength,
            Felt252WrapperError::InvalidCharacter => Self::InvalidCharacter,
            Felt252WrapperError::OutOfRange => Self::OutOfRange,
            Felt252WrapperError::ValueTooLarge => Self::ValueTooLarge,
        }
    }
}

impl vstd::std_specs::convert::FromSpecImpl<Felt252WrapperError>
    for RPCTransactionConversionError {
    open spec fn obeys_from_spec() -> bool {
        true
    }

    open spec fn from_spec(v: Felt252WrapperError) -> Self {
        spec_felt_error_to_rpc(v)
    }
}

/// Mathematical content of a public declare transaction, version 1.
#[verifier::ext_equal]
pub struct RPCDeclareTransactionV1Model {
    /// The transaction hash.
    pub transaction_hash: int,
    /// The largest fee the sender accepts.
    pub max_fee: int,
    /// The signature.
    pub signature: Seq<int>,
    /// The account nonce.
    pub nonce: int,
    /// Hash of the declared class.
    pub class_hash: int,
    /// The sender address.
    pub sender_address: int,
}

/// Public declare transaction, version 1: no compiled-class-hash field.
#[derive(Clone, Debug, PartialEq, Eq)]
pub struct RPCDeclareTransactionV1 {
    /// The transaction hash.
    pub transaction_hash: Felt252Wrapper,
    /// The largest fee the sender accepts.
    pub max_fee: Felt252Wrapper,
    /// The signature.
    pub signature: Vec<Felt252Wrapper>,
    /// The account nonce.
    pub nonce: Felt252Wrapper,
    /// Hash of the declared class.
    pub class_hash: Felt252Wrapper,
    /// The sender address.
    pub sender_address: Felt252Wrapper,
}

impl View for RPCDeclareTransactionV1 {
    type V = RPCDeclareTransactionV1Model;

    open spec fn view(&self) -> RPCDeclareTransactionV1Model {
        RPCDeclareTransactionV1Model {
            transaction_hash: self.transaction_hash@,
            max_fee: self.max_fee@,
            signature: felt_views(self.signature@),
            nonce: self.nonce@,
            class_hash: self.class_hash@,
            sender_address: self.sender_address@,
        }
    }
}

/// Mathematical content of a public declare transaction, version 2.
#[verifier::ext_equal]
pub struct RPCDeclareTransactionV2Model {
    /// The transaction hash.
    pub transaction_hash: int,
    /// The largest fee the sender accepts.
    pub max_fee: int,
    /// The signature.
    pub signature: Seq<int>,
    /// The account nonce.
    pub nonce: int,
    /// Hash of the declared class.
    pub class_hash: int,
    /// The sender address.
    pub sender_address: int,
    /// Hash of the compiled class.
    pub compiled_class_hash: int,
}

/// Public declare transaction, version 2: carries the compiled class
/// hash as well.
#[derive(Clone, Debug, PartialEq, Eq)]
pub struct RPCDeclareTransactionV2 {
    /// The transaction hash.
    pub transaction_hash: Felt252Wrapper,
    /// The largest fee the sender accepts.
    pub max_fee: Felt252Wrapper,
    /// The signature.
    pub signature: Vec<Felt252Wrapper>,
    /// The account nonce.
    pub nonce: Felt252Wrapper,
    /// Hash of the declared class.
    pub class_hash: Felt252Wrapper,
    /// The sender address.
    pub sender_address: Felt252Wrapper,
    /// Hash of the compiled class.
    pub compiled_class_hash: Felt252Wrapper,
}

impl View for RPCDeclareTransactionV2 {
    type V = RPCDeclareTransactionV2Model;

    open spec fn view(&self) -> RPCDeclareTransactionV2Model {
        RPCDeclareTransactionV2Model {
            transaction_hash: self.transaction_hash@,
            max_fee: self.max_fee@,
            signature: felt_views(self.signature@),
            nonce: self.nonce@,
            class_hash: self.class_hash@,
            sender_address: self.sender_address@,
            compiled_class_hash: self.compiled_class_hash@,
        }
    }
}

/// Mathematical content of a public invoke transaction, version 0.
#[verifier::ext_equal]
pub struct RPCInvokeTransactionV0Model {
    /// The transaction hash.
    pub transaction_hash: int,
    /// The largest fee the sender accepts.
    pub max_fee: int,
    /// The signature.
    pub signature: Seq<int>,
    /// The account nonce.
    pub nonce: int,
    /// The called contract address.
    pub contract_address: int,
    /// The explicit entry-point selector.
    pub entry_point_selector: int,
    /// Call arguments.
    pub calldata: Seq<int>,
}

/// Public invoke transaction, version 0: contract address plus an
/// explicit entry-point selector.
#[derive(Clone, Debug, PartialEq, Eq)]
pub struct RPCInvokeTransactionV0 {
    /// The transaction hash.
    pub transaction_hash: Felt252Wrapper,
    /// The largest fee the sender accepts.
    pub max_fee: Felt252Wrapper,
    /// The signature.
    pub signature: Vec<Felt252Wrapper>,
    /// The account nonce.
    pub nonce: Felt252Wrapper,
    /// The called contract address.
    pub contract_address: Felt252Wrapper,
    /// The explicit entry-point selector.
    pub entry_point_selector: Felt252Wrapper,
    /// Call arguments.
    pub calldata: Vec<Felt252Wrapper>,
}

impl View for RPCInvokeTransactionV0 {
    type V = RPCInvokeTransactionV0Model;

    open spec fn view(&self) -> RPCInvokeTransactionV0Model {
        RPCInvokeTransactionV0Model {
            transaction_hash: self.transaction_hash@,
            max_fee: self.max_fee@,
            signature: felt_views(self.signature@),
            nonce: self.nonce@,
            contract_address: self.contract_address@,
            entry_point_selector: self.entry_point_selector@,
            calldata: felt_views(self.calldata@),
        }
    }
}

/// Mathematical content of a public invoke transaction, version 1.
#[verifier::ext_equal]
pub struct RPCInvokeTransactionV1Model {
    /// The transaction hash.
    pub transaction_hash: int,
    /// The largest fee the sender accepts.
    pub max_fee: int,
    /// The signature.
    pub signature: Seq<int>,
    /// The account nonce.
    pub nonce: int,
    /// The sender address.
    pub sender_address: int,
    /// Call arguments.
    pub calldata: Seq<int>,
}

/// Public invoke transaction, version 1: sender address plus calldata,
/// no explicit selector.
#[derive(Clone, Debug, PartialEq, Eq)]
pub struct RPCInvokeTransactionV1 {
    /// The transaction hash.
    pub transaction_hash: Felt252Wrapper,
    /// The largest fee the sender accepts.
    pub max_fee: Felt252Wrapper,
    /// The signature.
    pub signature: Vec<Felt252Wrapper>,
    /// The account nonce.
    pub nonce: Felt252Wrapper,
    /// The sender address.
    pub sender_address: Felt252Wrapper,
    /// Call arguments.
    pub calldata: Vec<Felt252Wrapper>,
}

impl View for RPCInvokeTransactionV1 {
    type V = RPCInvokeTransactionV1Model;

    open spec fn view(&self) -> RPCInvokeTransactionV1Model {
        RPCInvokeTransactionV1Model {
            transaction_hash: self.transaction_hash@,
            max_fee: self.max_fee@,
            signature: felt_views(self.signature@),
            nonce: self.nonce@,
            sender_address: self.sender_address@,
            calldata: felt_views(self.calldata@),
        }
    }
}

/// Mathematical content of a public deploy-account transaction.
#[verifier::ext_equal]
pub struct RPCDeployAccountTransactionModel {
    /// The transaction hash.
    pub transaction_hash: int,
    /// The largest fee the sender accepts.
    pub max_fee: int,
    /// The signature.
    pub signature: Seq<int>,
    /// The account nonce.
    pub nonce: int,
    /// The deployment salt, narrowed into the field.
    pub contract_address_salt: int,
    /// Constructor arguments.
    pub constructor_calldata: Seq<int>,
    /// Hash of the account class.
    pub class_hash: int,
}

/// Public deploy-account transaction: a single sub-kind regardless of
/// version.
#[derive(Clone, Debug, PartialEq, Eq)]
pub struct RPCDeployAccountTransaction {
    /// The transaction hash.
    pub transaction_hash: Felt252Wrapper,
    /// The largest fee the sender accepts.
    pub max_fee: Felt252Wrapper,
    /// The signature.
    pub signature: Vec<Felt252Wrapper>,
    /// The account nonce.
    pub nonce: Felt252Wrapper,
    /// The deployment salt, narrowed into the field.
    pub contract_address_salt: Felt252Wrapper,
    /// Constructor arguments.
    pub constructor_calldata: Vec<Felt252Wrapper>,
    /// Hash of the account class.
    pub class_hash: Felt252Wrapper,
}

impl View for RPCDeployAccountTransaction {
    type V = RPCDeployAccountTransactionModel;

    open spec fn view(&self) -> RPCDeployAccountTransactionModel {
        RPCDeployAccountTransactionModel {
            transaction_hash: self.transaction_hash@,
            max_fee: self.max_fee@,
            signature: felt_views(self.signature@),
            nonce: self.nonce@,
            contract_address_salt: self.contract_address_salt@,
            constructor_calldata: felt_views(self.constructor_calldata@),
            class_hash: self.class_hash@,
        }
    }
}

/// Mathematical content of a public L1-handler transaction.
#[verifier::ext_equal]
pub struct RPCL1HandlerTransactionModel {
    /// The transaction hash.
    pub transaction_hash: int,
    /// The declared version.
    pub version: int,
    /// The L1 message nonce, at the public representation's width.
    pub nonce: int,
    /// The called contract address.
    pub contract_address: int,
    /// The explicit entry-point selector.
    pub entry_point_selector: int,
    /// Call arguments.
    pub calldata: Seq<int>,
}

/// Public L1-handler transaction: a single sub-kind; its nonce is a
/// 64-bit value in the public representation.
#[derive(Clone, Debug, PartialEq, Eq)]
pub struct RPCL1HandlerTransaction {
    /// The transaction hash.
    pub transaction_hash: Felt252Wrapper,
    /// The declared version.
    pub version: u64,
    /// The L1 message nonce, at the public representation's width.
    pub nonce: u64,
    /// The called contract address.
    pub contract_address: Felt252Wrapper,
    /// The explicit entry-point selector.
    pub entry_point_selector: Felt252Wrapper,
    /// Call arguments.
    pub calldata: Vec<Felt252Wrapper>,
}

impl View for RPCL1HandlerTransaction {
    type V = RPCL1HandlerTransactionModel;

    open spec fn view(&self) -> RPCL1HandlerTransactionModel {
        RPCL1HandlerTransactionModel {
            transaction_hash: self.transaction_hash@,
            version: self.version as int,
            nonce: self.nonce as int,
            contract_address: self.contract_address@,
            entry_point_selector: self.entry_point_selector@,
            calldata: felt_views(self.calldata@),
        }
    }
}

/// Mathematical content of a public declare transaction.
#[verifier::ext_equal]
pub enum RPCDeclareTransactionModel {
    /// Version 1.
    V1(RPCDeclareTransactionV1Model),
    /// Version 2.
    V2(RPCDeclareTransactionV2Model),
}

/// A public declare transaction, keyed by version.
#[derive(Clone, Debug, PartialEq, Eq)]
pub enum RPCDeclareTransaction {
    /// Version 1.
    V1(RPCDeclareTransactionV1),
    /// Version 2.
    V2(RPCDeclareTransactionV2),
}

impl View for RPCDeclareTransaction {
    type V = RPCDeclareTransactionModel;

    open spec fn view(&self) -> RPCDeclareTransactionModel {
        match self {
            RPCDeclareTransaction::V1(t) => RPCDeclareTransactionModel::V1(t@),
            RPCDeclareTransaction::V2(t) => RPCDeclareTransactionModel::V2(t@),
        }
    }
}

/// Mathematical content of a public invoke transaction.
#[verifier::ext_equal]
pub enum RPCInvokeTransactionModel {
    /// Version 0.
    V0(RPCInvokeTransactionV0Model),
    /// Version 1.
    V1(RPCInvokeTransactionV1Model),
}

/// A public invoke transaction, keyed by version.
#[derive(Clone, Debug, PartialEq, Eq)]
pub enum RPCInvokeTransaction {
    /// Version 0.
    V0(RPCInvokeTransactionV0),
    /// Version 1.
    V1(RPCInvokeTransactionV1),
}

impl View for RPCInvokeTransaction {
    type V = RPCInvokeTransactionModel;

    open spec fn view(&self) -> RPCInvokeTransactionModel {
        match self {
            RPCInvokeTransaction::V0(t) => RPCInvokeTransactionModel::V0(t@),
            RPCInvokeTransaction::V1(t) => RPCInvokeTransactionModel::V1(t@),
        }
    }
}

/// Mathematical content of a public transaction.
#[verifier::ext_equal]
pub enum RPCTransactionModel {
    /// A declare transaction.
    Declare(RPCDeclareTransactionModel),
    /// An invoke transaction.
    Invoke(RPCInvokeTransactionModel),
    /// A deploy-account transaction.
    DeployAccount(RPCDeployAccountTransactionModel),
    /// An L1-handler transaction.
    L1Handler(RPCL1HandlerTransactionModel),
}

/// A public transaction: the client-facing, version-keyed representation.
#[derive(Clone, Debug, PartialEq, Eq)]
pub enum RPCTransaction {
    /// A declare transaction.
    Declare(RPCDeclareTransaction),
    /// An invoke transaction.
    Invoke(RPCInvokeTransaction),
    /// A deploy-account transaction.
    DeployAccount(RPCDeployAccountTransaction),
    /// An L1-handler transaction.
    L1Handler(RPCL1HandlerTransaction),
}

impl View for RPCTransaction {
    type V = RPCTransactionModel;

    open spec fn view(&self) -> RPCTransactionModel {
        match self {
            RPCTransaction::Declare(t) => RPCTransactionModel::Declare(t@),
            RPCTransaction::Invoke(t) => RPCTransactionModel::Invoke(t@),
            RPCTransaction::DeployAccount(t) => RPCTransactionModel::DeployAccount(t@),
            RPCTransaction::L1Handler(t) => RPCTransactionModel::L1Handler(t@),
        }
    }
}

/// The projection's dispatch table: what projecting a canonical
/// transaction outward yields, for every canonical transaction.
pub open spec fn spec_project(t: TransactionModel)
    -> Result<RPCTransactionModel, RPCTransactionConversionError> {
    match t.tx_type {
        TxType::Declare => {
            if t.call_entrypoint.class_hash is None {
                Err(RPCTransactionConversionError::MissingInformation)
            } else if t.version == 1 {
                Ok(RPCTransactionModel::Declare(RPCDeclareTransactionModel::V1(
                    RPCDeclareTransactionV1Model {
                        transaction_hash: t.hash,
                        max_fee: t.max_fee,
                        signature: t.signature,
                        nonce: t.nonce,
                        class_hash: t.call_entrypoint.class_hash->0,
                        sender_address: t.sender_address,
                    },
                )))
            } else if t.version == 2 {
                Ok(RPCTransactionModel::Declare(RPCDeclareTransactionModel::V2(
                    RPCDeclareTransactionV2Model {
                        transaction_hash: t.hash,
                        max_fee: t.max_fee,
                        signature: t.signature,
                        nonce: t.nonce,
                        class_hash: t.call_entrypoint.class_hash->0,
                        sender_address: t.sender_address,
                        compiled_class_hash: t.call_entrypoint.class_hash->0,
                    },
                )))
            } else {
                Err(RPCTransactionConversionError::UnknownVersion)
            }
        },
        TxType::Invoke => {
            if t.version == 0 {
                if t.call_entrypoint.entrypoint_selector is None {
                    Err(RPCTransactionConversionError::MissingInformation)
                } else {
                    Ok(RPCTransactionModel::Invoke(RPCInvokeTransactionModel::V0(
                        RPCInvokeTransactionV0Model {
                            transaction_hash: t.hash,
                            max_fee: t.max_fee,
                            signature: t.signature,
                            nonce: t.nonce,
                            contract_address: t.call_entrypoint.storage_address,
                            entry_point_selector: t.call_entrypoint.entrypoint_selector->0,
                            calldata: t.call_entrypoint.calldata,
                        },
                    )))
                }
            } else if t.version == 1 {
                Ok(RPCTransactionModel::Invoke(RPCInvokeTransactionModel::V1(
                    RPCInvokeTransactionV1Model {
                        transaction_hash: t.hash,
                        max_fee: t.max_fee,
                        signature: t.signature,
                        nonce: t.nonce,
                        sender_address: t.sender_address,
                        calldata: t.call_entrypoint.calldata,
                    },
                )))
            } else {
                Err(RPCTransactionConversionError::UnknownVersion)
            }
        },
        TxType::DeployAccount => {
            if t.contract_address_salt is None {
                Err(RPCTransactionConversionError::MissingInformation)
            } else if t.contract_address_salt->0 >= felt252_prime() {
                Err(RPCTransactionConversionError::OutOfRange)
            } else if t.call_entrypoint.class_hash is None {
                Err(RPCTransactionConversionError::MissingInformation)
            } else {
                Ok(RPCTransactionModel::DeployAccount(RPCDeployAccountTransactionModel {
                    transaction_hash: t.hash,
                    max_fee: t.max_fee,
                    signature: t.signature,
                    nonce: t.nonce,
                    contract_address_salt: t.contract_address_salt->0,
                    constructor_calldata: t.call_entrypoint.calldata,
                    class_hash: t.call_entrypoint.class_hash->0,
                }))
            }
        },
        TxType::L1Handler => {
            if t.nonce > u64::MAX {
                Err(RPCTransactionConversionError::ValueTooLarge)
            } else if t.call_entrypoint.entrypoint_selector is None {
                Err(RPCTransactionConversionError::MissingInformation)
            } else {
                Ok(RPCTransactionModel::L1Handler(RPCL1HandlerTransactionModel {
                    transaction_hash: t.hash,
                    version: t.version,
                    nonce: t.nonce,
                    contract_address: t.call_entrypoint.storage_address,
                    entry_point_selector: t.call_entrypoint.entrypoint_selector->0,
                    calldata: t.call_entrypoint.calldata,
                }))
            }
        },
    }
}

impl RPCTransaction {
    /// Projects a canonical transaction into the public query
    /// representation, as the dispatch table `spec_project` says: by kind,
    /// then by version; the first absent required field short-circuits.
    /// An L1-handler nonce too wide for the public representation is a
    /// typed failure, never an abort.
    pub fn try_from(value: Transaction) -> (r: Result<
        RPCTransaction,
        RPCTransactionConversionError,
    >)
        ensures
            (match r {
                Ok(p) => spec_project(value@) == Ok::<RPCTransactionModel,
                    RPCTransactionConversionError>(p@),
                Err(e) => spec_project(value@) == Err::<RPCTransactionModel,
                    RPCTransactionConversionError>(e),
            }),
    {
        let ghost t = value@;
        match value.tx_type {
            TxType::Declare => {
                let class_hash = match value.call_entrypoint.class_hash {
                    Some(h) => h,
                    None => {
                        return Err(RPCTransactionConversionError::MissingInformation);
                    },
                };
                if value.version == 1 {
                    let p = RPCTransaction::Declare(RPCDeclareTransaction::V1(
                        RPCDeclareTransactionV1 {
                            transaction_hash: value.hash,
                            max_fee: value.max_fee,
                            signature: value.signature,
                            nonce: value.nonce,
                            class_hash,
                            sender_address: value.sender_address,
                        },
                    ));
                    proof {
                        assert(spec_project(t)->Ok_0 =~~= p@);
                    }
                    Ok(p)
                } else if value.version == 2 {
                    let p = RPCTransaction::Declare(RPCDeclareTransaction::V2(
                        RPCDeclareTransactionV2 {
                            transaction_hash: value.hash,
                            max_fee: value.max_fee,
                            signature: value.signature,
                            nonce: value.nonce,
                            class_hash,
                            sender_address: value.sender_address,
                            compiled_class_hash: class_hash,
                        },
                    ));
                    proof {
                        assert(spec_project(t)->Ok_0 =~~= p@);
                    }
                    Ok(p)
                } else {
                    Err(RPCTransactionConversionError::UnknownVersion)
                }
            },
            TxType::Invoke => {
                if value.version == 0 {
                    let entry_point_selector = match value.call_entrypoint.entrypoint_selector {
                        Some(s) => s,
                        None => {
                            return Err(RPCTransactionConversionError::MissingInformation);
                        },
                    };
                    let p = RPCTransaction::Invoke(RPCInvokeTransaction::V0(
                        RPCInvokeTransactionV0 {
                            transaction_hash: value.hash,
                            max_fee: value.max_fee,
                            signature: value.signature,
                            nonce: value.nonce,
                            contract_address: value.call_entrypoint.storage_address,
                            entry_point_selector,
                            calldata: value.call_entrypoint.calldata,
                        },
                    ));
                    proof {
                        assert(spec_project(t)->Ok_0 =~~= p@);
                    }
                    Ok(p)
                } else if value.version == 1 {
                    let p = RPCTransaction::Invoke(RPCInvokeTransaction::V1(
                        RPCInvokeTransactionV1 {
                            transaction_hash: value.hash,
                            max_fee: value.max_fee,
                            signature: value.signature,
                            nonce: value.nonce,
                            sender_address: value.sender_address,
                            calldata: value.call_entrypoint.calldata,
                        },
                    ));
                    proof {
                        assert(spec_project(t)->Ok_0 =~~= p@);
                    }
                    Ok(p)
                } else {
                    Err(RPCTransactionConversionError::UnknownVersion)
                }
            },
            TxType::DeployAccount => {
                let salt = match value.contract_address_salt {
                    Some(s) => s,
                    None => {
                        return Err(RPCTransactionConversionError::MissingInformation);
                    },
                };
                let contract_address_salt = match Felt252Wrapper::try_from_u256(&salt) {
                    Ok(f) => f,
                    Err(e) => {
                        return Err(RPCTransactionConversionError::from(e));
                    },
                };
                let class_hash = match value.call_entrypoint.class_hash {
                    Some(h) => h,
                    None => {
                        return Err(RPCTransactionConversionError::MissingInformation);
                    },
                };
                let p = RPCTransaction::DeployAccount(RPCDeployAccountTransaction {
                    transaction_hash: value.hash,
                    max_fee: value.max_fee,
                    signature: value.signature,
                    nonce: value.nonce,
                    contract_address_salt,
                    constructor_calldata: value.call_entrypoint.calldata,
                    class_hash,
                });
                proof {
                    assert(spec_project(t)->Ok_0 =~~= p@);
                }
                Ok(p)
            },
            TxType::L1Handler => {
                let nonce = match value.nonce.try_into_u64() {
                    Ok(n) => n,
                    Err(_) => {
                        return Err(RPCTransactionConversionError::ValueTooLarge);
                    },
                };
                let entry_point_selector = match value.call_entrypoint.entrypoint_selector {
                    Some(s) => s,
                    None => {
                        return Err(RPCTransactionConversionError::MissingInformation);
                    },
                };
                let p = RPCTransaction::L1Handler(RPCL1HandlerTransaction {
                    transaction_hash: value.hash,
                    version: value.version as u64,
                    nonce,
                    contract_address: value.call_entrypoint.storage_address,
                    entry_point_selector,
                    calldata: value.call_entrypoint.calldata,
                });
                proof {
                    assert(spec_project(t)->Ok_0 =~~= p@);
                }
                Ok(p)
            },
        }
    }
}

/// Law: upcasting a version-1 invoke transaction and projecting the
/// result outward always succeeds, and the public form carries the
/// variant's sender address and calldata unchanged, with the derived
/// hash.
pub proof fn lemma_normalize_then_project_invoke_v1(v: InvokeModel, chain: int)
    requires
        v.version == 1,
    ensures
        (spec_project(spec_normalize_invoke(v, chain)) matches Ok(RPCTransactionModel::Invoke(
            RPCInvokeTransactionModel::V1(i),
        )) && i.sender_address == v.sender_address && i.calldata == v.calldata
            && i.signature == v.signature && i.nonce == v.nonce && i.max_fee == v.max_fee
            && i.transaction_hash == spec_normalize_invoke(v, chain).hash),
{
}

/// Law: the version dispatch is complete for declare transactions. With
/// the class hash present, versions other than 1 and 2 fail with
/// `UnknownVersion`; version 1 yields the first sub-kind, which carries
/// no compiled class hash; version 2 yields the second sub-kind, whose
/// compiled class hash equals the class hash. An absent class hash is
/// reported first, as `MissingInformation`.
pub proof fn lemma_declare_version_dispatch(t: TransactionModel)
    requires
        t.tx_type == TxType::Declare,
        t.call_entrypoint.class_hash is Some,
    ensures
        t.version != 1 && t.version != 2 ==> spec_project(t) == Err::<RPCTransactionModel,
            RPCTransactionConversionError>(RPCTransactionConversionError::UnknownVersion),
        t.version == 1 ==> (spec_project(t) matches Ok(RPCTransactionModel::Declare(
            RPCDeclareTransactionModel::V1(d),
        )) && d.class_hash == t.call_entrypoint.class_hash->0),
        t.version == 2 ==> (spec_project(t) matches Ok(RPCTransactionModel::Declare(
            RPCDeclareTransactionModel::V2(d),
        )) && d.compiled_class_hash == t.call_entrypoint.class_hash->0
            && d.class_hash == t.call_entrypoint.class_hash->0),
{
}

} // verus!
