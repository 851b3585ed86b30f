//! The call descriptor a canonical transaction carries, and the declared
//! contract class it may own.

use vstd::prelude::*;

use crate::felt::{felt_views, Felt252Wrapper};

verus! {

/// Largest element count of signature and event arrays.
pub const MAX_ARRAY_SIZE: usize = 10000;

/// Largest element count of calldata; a separate, larger cap.
pub const MAX_CALLDATA_SIZE: usize = 100000;

/// Contract addresses are field elements.
pub type ContractAddressWrapper = Felt252Wrapper;

/// The kind of entry point a call addresses.
#[derive(Clone, Copy, Debug, PartialEq, Eq, Structural, Hash)]
pub enum EntryPointTypeWrapper {
    /// A constructor entry point.
    Constructor,
    /// An external entry point.
    External,
    /// An entry point reached by a message from L1.
    L1Handler,
}

/// A declared contract class: its program, a sequence of field elements.
#[derive(Clone, Debug, PartialEq, Eq, Default)]
pub struct ContractClassWrapper {
    /// The class's program.
    pub program: Vec<Felt252Wrapper>,
}

impl View for ContractClassWrapper {
    type V = Seq<int>;

    open spec fn view(&self) -> Seq<int> {
        felt_views(self.program@)
    }
}

impl ContractClassWrapper {
    /// All program elements lie in the field; the count fits the hash's
    /// closing element.
    pub open spec fn wf(&self) -> bool {
        &&& forall|i: int|
            0 <= i < self.program@.len() ==> (#[trigger] self.program@[i]).valid()
        &&& self.program@.len() <= u64::MAX
    }
}

/// The mathematical content of a call descriptor.
#[verifier::ext_equal]
pub struct CallEntryPointModel {
    /// Target class hash, when the kind carries one.
    pub class_hash: Option<int>,
    /// Kind of the entry point addressed.
    pub entrypoint_type: EntryPointTypeWrapper,
    /// Selector of the entry point, when one is named.
    pub entrypoint_selector: Option<int>,
    /// Call arguments.
    pub calldata: Seq<int>,
    /// Address of the contract the call runs against.
    pub storage_address: int,
    /// Address of the caller.
    pub caller_address: int,
}

/// The sub-record of a canonical transaction describing the target class,
/// entry point and calldata for execution.
#[derive(Clone, Debug, PartialEq, Eq)]
pub struct CallEntryPointWrapper {
    /// Target class hash, when the kind carries one.
    pub class_hash: Option<Felt252Wrapper>,
    /// Kind of the entry point addressed.
    pub entrypoint_type: EntryPointTypeWrapper,
    /// Selector of the entry point, when one is named.
    pub entrypoint_selector: Option<Felt252Wrapper>,
    /// Call arguments.
    pub calldata: Vec<Felt252Wrapper>,
    /// Address of the contract the call runs against.
    pub storage_address: ContractAddressWrapper,
    /// Address of the caller.
    pub caller_address: ContractAddressWrapper,
}

/// The integer value of an optional field element.
pub open spec fn opt_felt_view(f: Option<Felt252Wrapper>) -> Option<int> {
    match f {
        Some(x) => Some(x@),
        None => None,
    }
}

impl View for CallEntryPointWrapper {
    type V = CallEntryPointModel;

    open spec fn view(&self) -> CallEntryPointModel {
        CallEntryPointModel {
            class_hash: opt_felt_view(self.class_hash),
            entrypoint_type: self.entrypoint_type,
            entrypoint_selector: opt_felt_view(self.entrypoint_selector),
            calldata: felt_views(self.calldata@),
            storage_address: self.storage_address@,
            caller_address: self.caller_address@,
        }
    }
}

impl CallEntryPointWrapper {
    /// All held field elements lie in the field, and calldata respects its
    /// cap.
    pub open spec fn wf(&self) -> bool {
        &&& (self.class_hash matches Some(h) ==> h.valid())
        &&& (self.entrypoint_selector matches Some(s) ==> s.valid())
        &&& forall|i: int|
            0 <= i < self.calldata@.len() ==> (#[trigger] self.calldata@[i]).valid()
        &&& self.calldata@.len() <= MAX_CALLDATA_SIZE
        &&& self.storage_address.valid()
        &&& self.caller_address.valid()
    }

    /// Builds a call descriptor from its parts.
    pub fn new(
        class_hash: Option<Felt252Wrapper>,
        entrypoint_type: EntryPointTypeWrapper,
        entrypoint_selector: Option<Felt252Wrapper>,
        calldata: Vec<Felt252Wrapper>,
        storage_address: ContractAddressWrapper,
        caller_address: ContractAddressWrapper,
    ) -> (r: Self)
        ensures
            r == (CallEntryPointWrapper {
                class_hash,
                entrypoint_type,
                entrypoint_selector,
                calldata,
                storage_address,
                caller_address,
            }),
    {
        CallEntryPointWrapper {
            class_hash,
            entrypoint_type,
            entrypoint_selector,
            calldata,
            storage_address,
            caller_address,
        }
    }
}

} // verus!
