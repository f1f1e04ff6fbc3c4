//! The Zephyr basic group (group 63): erase the storage partition.

use vstd::prelude::*;

use crate::cbor::{encode_cbor, Cbor, CborValue, MapBuilder};
use crate::commands::{as_dict, is_dict, McuMgrCommand};

verus! {

/// Erase storage command: erases the `storage_partition` flash partition.
pub struct EraseStorage;

/// Response to [`EraseStorage`]: carries nothing.
#[derive(Debug, Clone, Copy, PartialEq, Eq, Structural, Default)]
pub struct EraseStorageResponse;

impl McuMgrCommand for EraseStorage {
    type Response = EraseStorageResponse;

    open spec fn spec_write_operation(&self) -> bool {
        true
    }

    open spec fn spec_group_id(&self) -> u16 {
        63
    }

    open spec fn spec_command_id(&self) -> u8 {
        0
    }

    open spec fn spec_payload(&self) -> Cbor {
        Cbor::Dict(Seq::empty())
    }

    open spec fn response_decodes(v: Cbor) -> bool {
        as_dict(v) is Some
    }

    open spec fn response_matches(v: Cbor, r: EraseStorageResponse) -> bool {
        as_dict(v) is Some
    }

    fn is_write_operation(&self) -> bool {
        true
    }

    fn group_id(&self) -> u16 {
        63
    }

    fn command_id(&self) -> u8 {
        0
    }

    fn encode_payload(&self) -> (r: Vec<u8>) {
        let b = MapBuilder::new();
        let v = b.build();
        encode_cbor(&v)
    }

    fn decode_response(v: &CborValue) -> (r: Option<EraseStorageResponse>) {
        if is_dict(v) {
            Some(EraseStorageResponse)
        } else {
            None
        }
    }
}

} // verus!
