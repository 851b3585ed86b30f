//! Starknet transaction primitives: a canonical transaction representation,
//! lossless upcasts from the concrete transaction kinds, partial downcasts
//! back to them, and projections into the public query representation.

pub mod commitment;
pub mod execution;
pub mod felt;
pub mod receipt;
pub mod rpc;
pub mod transaction;

pub use felt::{Felt252Wrapper, Felt252WrapperError, U256Wrapper};
pub use receipt::{EventError, EventWrapper, StateDiffError, TransactionReceiptWrapper};
pub use rpc::{RPCTransaction, RPCTransactionConversionError};
pub use transaction::{
    DeclareTransaction, DeployAccountTransaction, InvokeTransaction, Transaction,
    TransactionConversionError, TxType,
};
