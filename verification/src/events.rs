//! Events emitted during execution: an append-only list of entries keyed by
//! a global unique identifier, with a per-key counter.

use vstd::prelude::*;

use crate::types::TypeTag;
use crate::types::TypeTagV;

verus! {

/// The length, in bytes, of an event key.
pub const EVENT_KEY_LENGTH: usize = 40;

/// The mathematical value of a `ContractEvent`.
#[verifier::ext_equal]
pub struct ContractEventV {
    pub key: Seq<u8>,
    pub sequence_number: u64,
    pub type_tag: TypeTagV,
    pub event_data: Seq<u8>,
}

/// One emitted event: its key, its position in that key's stream, the type
/// of its payload, and the payload in its canonical encoding.
#[derive(Debug, PartialEq, Eq)]
pub struct ContractEvent {
    pub key: Vec<u8>,
    pub sequence_number: u64,
    pub type_tag: TypeTag,
    pub event_data: Vec<u8>,
}

impl View for ContractEvent {
    type V = ContractEventV;

    open spec fn view(&self) -> ContractEventV {
        ContractEventV {
            key: self.key@,
            sequence_number: self.sequence_number,
            type_tag: self.type_tag@,
            event_data: self.event_data@,
        }
    }
}

impl ContractEvent {
    /// An event from its parts.
    pub fn new(key: Vec<u8>, sequence_number: u64, type_tag: TypeTag, event_data: Vec<u8>) -> (r:
        ContractEvent)
        requires
            key@.len() == EVENT_KEY_LENGTH,
        ensures
            r@ == (ContractEventV {
                key: key@,
                sequence_number,
                type_tag: type_tag@,
                event_data: event_data@,
            }),
    {
        ContractEvent { key, sequence_number, type_tag, event_data }
    }
}

} // verus!
