//! Receipts and events: the canonical receipt the execution engine
//! produces, and its projection into the public query representation,
//! dispatched on the transaction kind.

use vstd::prelude::*;

use crate::execution::{ContractAddressWrapper, MAX_ARRAY_SIZE};
use crate::felt::{felt_views, Felt252Wrapper};
use crate::transaction::TxType;

verus! {

/// Mathematical content of a canonical event.
#[verifier::ext_equal]
pub struct EventModel {
    /// The keys (topics) of the event.
    pub keys: Seq<int>,
    /// The data of the event.
    pub data: Seq<int>,
    /// The address that emitted the event.
    pub from_address: int,
    /// Hash of the transaction that emitted the event.
    pub transaction_hash: int,
}

/// An event emitted during execution, owned by the receipt that recorded
/// it.
#[derive(Clone, Debug, PartialEq, Eq, Default)]
pub struct EventWrapper {
    /// The keys (topics) of the event.
    pub keys: Vec<Felt252Wrapper>,
    /// The data of the event.
    pub data: Vec<Felt252Wrapper>,
    /// The address that emitted the event.
    pub from_address: ContractAddressWrapper,
    /// Hash of the transaction that emitted the event.
    pub transaction_hash: Felt252Wrapper,
}

impl View for EventWrapper {
    type V = EventModel;

    open spec fn view(&self) -> EventModel {
        EventModel {
            keys: felt_views(self.keys@),
            data: felt_views(self.data@),
            from_address: self.from_address@,
            transaction_hash: self.transaction_hash@,
        }
    }
}

impl EventWrapper {
    /// All held field elements lie in the field and the key and data
    /// arrays respect their caps.
    pub open spec fn wf(&self) -> bool {
        &&& forall|i: int| 0 <= i < self.keys@.len() ==> (#[trigger] self.keys@[i]).valid()
        &&& self.keys@.len() <= MAX_ARRAY_SIZE
        &&& forall|i: int| 0 <= i < self.data@.len() ==> (#[trigger] self.data@[i]).valid()
        &&& self.data@.len() <= MAX_ARRAY_SIZE
        &&& self.from_address.valid()
        &&& self.transaction_hash.valid()
    }
}

/// Mathematical content of a public event.
#[verifier::ext_equal]
pub struct RPCEventModel {
    /// The address that emitted the event.
    pub from_address: int,
    /// The keys (topics) of the event.
    pub keys: Seq<int>,
    /// The data of the event.
    pub data: Seq<int>,
}

/// A public event: the canonical event without the transaction
/// back-reference.
#[derive(Clone, Debug, PartialEq, Eq)]
pub struct RPCEvent {
    /// The address that emitted the event.
    pub from_address: Felt252Wrapper,
    /// The keys (topics) of the event.
    pub keys: Vec<Felt252Wrapper>,
    /// The data of the event.
    pub data: Vec<Felt252Wrapper>,
}

impl View for RPCEvent {
    type V = RPCEventModel;

    open spec fn view(&self) -> RPCEventModel {
        RPCEventModel {
            from_address: self.from_address@,
            keys: felt_views(self.keys@),
            data: felt_views(self.data@),
        }
    }
}

/// What projecting a canonical event outward keeps: everything but the
/// transaction back-reference.
pub open spec fn spec_event_to_rpc(e: EventModel) -> RPCEventModel {
    RPCEventModel { from_address: e.from_address, keys: e.keys, data: e.data }
}

impl From<EventWrapper> for RPCEvent {
    /// Projects a canonical event into the public representation.
    fn from(value: EventWrapper) -> (r: Self) {
        RPCEvent { from_address: value.from_address, keys: value.keys, data: value.data }
    }
}

impl vstd::std_specs::convert::FromSpecImpl<EventWrapper> for RPCEvent {
    open spec fn obeys_from_spec() -> bool {
        true
    }

    open spec fn from_spec(v: EventWrapper) -> Self {
        RPCEvent { from_address: v.from_address, keys: v.keys, data: v.data }
    }
}

/// The public status of a transaction, supplied by the query caller: the
/// canonical receipt does not itself track it.
#[derive(Clone, Copy, Debug, PartialEq, Eq, Structural)]
pub enum RPCTransactionStatus {
    /// Received by the sequencer, not yet in a block.
    Received,
    /// In a pending block.
    Pending,
    /// Accepted on L2.
    AcceptedOnL2,
    /// Accepted on L1.
    AcceptedOnL1,
    /// Rejected.
    Rejected,
}

/// A message sent to L1 during execution.
#[derive(Clone, Debug, PartialEq, Eq)]
pub struct RPCMsgToL1 {
    /// The address of the L2 contract sending the message.
    pub from_address: Felt252Wrapper,
    /// The target L1 address.
    pub to_address: Felt252Wrapper,
    /// The payload of the message.
    pub payload: Vec<Felt252Wrapper>,
}

/// A canonical transaction receipt: created once by the execution engine
/// after a transaction runs, immutable thereafter.
#[derive(Clone, Debug, PartialEq, Eq)]
pub struct TransactionReceiptWrapper {
    /// Hash of the transaction this receipt answers for.
    pub transaction_hash: Felt252Wrapper,
    /// The fee actually charged.
    pub actual_fee: Felt252Wrapper,
    /// The kind of the transaction.
    pub tx_type: TxType,
    /// Number of the containing block.
    pub block_number: u64,
    /// Hash of the containing block.
    pub block_hash: Felt252Wrapper,
    /// The address the transaction deployed, filled by the execution
    /// engine at receipt-creation time; read only for the deploy-account
    /// kind.
    pub contract_address: ContractAddressWrapper,
    /// The events emitted by the transaction.
    pub events: Vec<EventWrapper>,
}

impl TransactionReceiptWrapper {
    /// All held field elements lie in the field, the events are well
    /// formed, and the event array respects its cap.
    pub open spec fn wf(&self) -> bool {
        &&& self.transaction_hash.valid()
        &&& self.actual_fee.valid()
        &&& self.block_hash.valid()
        &&& self.contract_address.valid()
        &&& forall|i: int| 0 <= i < self.events@.len() ==> (#[trigger] self.events@[i]).wf()
        &&& self.events@.len() <= MAX_ARRAY_SIZE
    }
}

/// A public declare transaction receipt.
#[derive(Clone, Debug, PartialEq, Eq)]
pub struct RPCDeclareTransactionReceipt {
    /// Hash of the transaction this receipt answers for.
    pub transaction_hash: Felt252Wrapper,
    /// The fee actually charged.
    pub actual_fee: Felt252Wrapper,
    /// The status supplied by the query caller.
    pub status: RPCTransactionStatus,
    /// Hash of the containing block.
    pub block_hash: Felt252Wrapper,
    /// Number of the containing block.
    pub block_number: u64,
    /// Messages sent to L1; not yet recorded by the canonical receipt, so
    /// always empty here.
    pub messages_sent: Vec<RPCMsgToL1>,
    /// The events emitted by the transaction.
    pub events: Vec<RPCEvent>,
}

/// A public invoke transaction receipt.
#[derive(Clone, Debug, PartialEq, Eq)]
pub struct RPCInvokeTransactionReceipt {
    /// Hash of the transaction this receipt answers for.
    pub transaction_hash: Felt252Wrapper,
    /// The fee actually charged.
    pub actual_fee: Felt252Wrapper,
    /// The status supplied by the query caller.
    pub status: RPCTransactionStatus,
    /// Hash of the containing block.
    pub block_hash: Felt252Wrapper,
    /// Number of the containing block.
    pub block_number: u64,
    /// Messages sent to L1; not yet recorded by the canonical receipt, so
    /// always empty here.
    pub messages_sent: Vec<RPCMsgToL1>,
    /// The events emitted by the transaction.
    pub events: Vec<RPCEvent>,
}

/// A public deploy-account transaction receipt; it alone carries the
/// deployed contract address.
#[derive(Clone, Debug, PartialEq, Eq)]
pub struct RPCDeployAccountTransactionReceipt {
    /// Hash of the transaction this receipt answers for.
    pub transaction_hash: Felt252Wrapper,
    /// The fee actually charged.
    pub actual_fee: Felt252Wrapper,
    /// The status supplied by the query caller.
    pub status: RPCTransactionStatus,
    /// Hash of the containing block.
    pub block_hash: Felt252Wrapper,
    /// Number of the containing block.
    pub block_number: u64,
    /// Messages sent to L1; not yet recorded by the canonical receipt, so
    /// always empty here.
    pub messages_sent: Vec<RPCMsgToL1>,
    /// The events emitted by the transaction.
    pub events: Vec<RPCEvent>,
    /// The address of the deployed contract.
    pub contract_address: Felt252Wrapper,
}

/// A public L1-handler transaction receipt.
#[derive(Clone, Debug, PartialEq, Eq)]
pub struct RPCL1HandlerTransactionReceipt {
    /// Hash of the transaction this receipt answers for.
    pub transaction_hash: Felt252Wrapper,
    /// The fee actually charged.
    pub actual_fee: Felt252Wrapper,
    /// The status supplied by the query caller.
    pub status: RPCTransactionStatus,
    /// Hash of the containing block.
    pub block_hash: Felt252Wrapper,
    /// Number of the containing block.
    pub block_number: u64,
    /// Messages sent to L1; not yet recorded by the canonical receipt, so
    /// always empty here.
    pub messages_sent: Vec<RPCMsgToL1>,
    /// The events emitted by the transaction.
    pub events: Vec<RPCEvent>,
}

/// A public transaction receipt, keyed by the transaction's kind.
#[derive(Clone, Debug, PartialEq, Eq)]
pub enum RPCTransactionReceipt {
    /// Receipt of a declare transaction.
    Declare(RPCDeclareTransactionReceipt),
    /// Receipt of an invoke transaction.
    Invoke(RPCInvokeTransactionReceipt),
    /// Receipt of a deploy-account transaction.
    DeployAccount(RPCDeployAccountTransactionReceipt),
    /// Receipt of an L1-handler transaction.
    L1Handler(RPCL1HandlerTransactionReceipt),
}

/// A receipt that may still be pending. This layer only projects receipts
/// of transactions already in a block, so only the non-pending form is
/// produced here.
#[derive(Clone, Debug, PartialEq, Eq)]
pub enum RPCMaybePendingTransactionReceipt {
    /// A receipt of a transaction in a block.
    Receipt(RPCTransactionReceipt),
}

/// The public events are the canonical ones, projected element for
/// element, in order.
pub open spec fn events_projected(ins: Seq<EventWrapper>, outs: Seq<RPCEvent>) -> bool {
    &&& outs.len() == ins.len()
    &&& forall|i: int| 0 <= i < ins.len() ==> (#[trigger] outs[i])@ == spec_event_to_rpc(ins[i]@)
}

impl TransactionReceiptWrapper {
    /// Projects a canonical receipt into the public representation,
    /// dispatched on the transaction kind. The status is supplied by the
    /// caller. Always succeeds. The messages-sent list is empty: the
    /// canonical receipt does not yet record messages to L1.
    pub fn into_maybe_pending_transaction_receipt(self, status: RPCTransactionStatus) -> (r:
        RPCMaybePendingTransactionReceipt)
        ensures
            self.tx_type == TxType::Declare ==> (r matches
                RPCMaybePendingTransactionReceipt::Receipt(RPCTransactionReceipt::Declare(rc))
                && rc.transaction_hash == self.transaction_hash
                && rc.actual_fee == self.actual_fee && rc.status == status
                && rc.block_hash == self.block_hash && rc.block_number == self.block_number
                && rc.messages_sent@.len() == 0 && events_projected(self.events@, rc.events@)),
            self.tx_type == TxType::Invoke ==> (r matches
                RPCMaybePendingTransactionReceipt::Receipt(RPCTransactionReceipt::Invoke(rc))
                && rc.transaction_hash == self.transaction_hash
                && rc.actual_fee == self.actual_fee && rc.status == status
                && rc.block_hash == self.block_hash && rc.block_number == self.block_number
                && rc.messages_sent@.len() == 0 && events_projected(self.events@, rc.events@)),
            self.tx_type == TxType::DeployAccount ==> (r matches
                RPCMaybePendingTransactionReceipt::Receipt(RPCTransactionReceipt::DeployAccount(
                rc,
                )) && rc.transaction_hash == self.transaction_hash
                && rc.actual_fee == self.actual_fee && rc.status == status
                && rc.block_hash == self.block_hash && rc.block_number == self.block_number
                && rc.messages_sent@.len() == 0 && events_projected(self.events@, rc.events@)
                && rc.contract_address == self.contract_address),
            self.tx_type == TxType::L1Handler ==> (r matches
                RPCMaybePendingTransactionReceipt::Receipt(RPCTransactionReceipt::L1Handler(rc))
                && rc.transaction_hash == self.transaction_hash
                && rc.actual_fee == self.actual_fee && rc.status == status
                && rc.block_hash == self.block_hash && rc.block_number == self.block_number
                && rc.messages_sent@.len() == 0 && events_projected(self.events@, rc.events@)),
    {
        let transaction_hash = self.transaction_hash;
        let actual_fee = self.actual_fee;
        let block_hash = self.block_hash;
        let block_number = self.block_number;
        let ghost orig = self.events@;
        let mut remaining = self.events;
        let mut events: Vec<RPCEvent> = Vec::new();
        while remaining.len() > 0
            invariant
                events@.len() + remaining@.len() == orig.len(),
                remaining@ =~= orig.skip(events@.len() as int),
                forall|i: int|
                    0 <= i < events@.len() ==> (#[trigger] events@[i])@ == spec_event_to_rpc(
                        orig[i]@,
                    ),
            decreases remaining@.len(),
        {
            let ghost done = events@.len() as int;
            let e = remaining.remove(0);
            proof {
                assert(e == orig[done]);
                assert(orig.skip(done).remove(0) =~= orig.skip(done + 1));
            }
            events.push(RPCEvent::from(e));
        }
        let messages_sent: Vec<RPCMsgToL1> = Vec::new();
        match self.tx_type {
            TxType::Declare => RPCMaybePendingTransactionReceipt::Receipt(
                RPCTransactionReceipt::Declare(RPCDeclareTransactionReceipt {
                    transaction_hash,
                    actual_fee,
                    status,
                    block_hash,
                    block_number,
                    messages_sent,
                    events,
                }),
            ),
            TxType::Invoke => RPCMaybePendingTransactionReceipt::Receipt(
                RPCTransactionReceipt::Invoke(RPCInvokeTransactionReceipt {
                    transaction_hash,
                    actual_fee,
                    status,
                    block_hash,
                    block_number,
                    messages_sent,
                    events,
                }),
            ),
            TxType::DeployAccount => RPCMaybePendingTransactionReceipt::Receipt(
                RPCTransactionReceipt::DeployAccount(RPCDeployAccountTransactionReceipt {
                    transaction_hash,
                    actual_fee,
                    status,
                    block_hash,
                    block_number,
                    messages_sent,
                    events,
                    contract_address: self.contract_address,
                }),
            ),
            TxType::L1Handler => RPCMaybePendingTransactionReceipt::Receipt(
                RPCTransactionReceipt::L1Handler(RPCL1HandlerTransactionReceipt {
                    transaction_hash,
                    actual_fee,
                    status,
                    block_hash,
                    block_number,
                    messages_sent,
                    events,
                }),
            ),
        }
    }
}

/// Failure kinds of event construction, upstream of this layer; events
/// this layer receives already satisfy these constraints.
#[derive(Clone, Copy, Debug, PartialEq, Eq, Structural)]
pub enum EventError {
    /// The provided keys are invalid.
    InvalidKeys,
    /// The provided data is invalid.
    InvalidData,
    /// The provided emitting address is invalid.
    InvalidFromAddress,
    /// Too many events.
    TooManyEvents,
}

/// Failure kinds of registering a state diff, upstream of this layer.
#[derive(Clone, Copy, Debug, PartialEq, Eq, Structural)]
pub enum StateDiffError {
    /// Newly deployed contracts could not be registered.
    DeployedContractError,
    /// Newly declared classes could not be registered.
    DeclaredClassError,
}

} // verus!
