//! Command-completion and command-status event payloads.

use vstd::prelude::*;

use crate::endian::{le16, read_u16_le};
use crate::error::{err_not_enough_data, not_enough_data, Error};
use crate::operations::OperationId;
use crate::pack::Unpack;
use crate::status::Status;

verus! {

/// A ghost-level command completion: its operation, outcome and result
/// bytes.
pub struct CommandCompleteModel {
    pub operation: OperationId,
    pub status: Status,
    pub data: Seq<u8>,
}

/// A finished command: `opcode:u16, status:u8` followed by the
/// operation-specific result bytes, which fill the rest of the payload.
#[derive(Clone, Copy, Debug, PartialEq, Eq)]
pub struct CommandComplete<'a> {
    pub operation: OperationId,
    pub status: Status,
    pub data: &'a [u8],
}

impl<'a> View for CommandComplete<'a> {
    type V = CommandCompleteModel;

    open spec fn view(&self) -> CommandCompleteModel {
        CommandCompleteModel {
            operation: self.operation,
            status: self.status,
            data: self.data@,
        }
    }
}

impl<'a> Unpack<'a> for CommandComplete<'a> {
    open spec fn spec_min_size() -> int {
        3
    }

    open spec fn spec_unpack(b: Seq<u8>) -> Result<(CommandCompleteModel, int), Error> {
        if b.len() < 3 {
            Err(not_enough_data())
        } else {
            Ok(
                (
                    CommandCompleteModel {
                        operation: OperationId::spec_from_wire(le16(b.subrange(0, 2)) as u16),
                        status: Status::spec_from_wire(b[2]),
                        data: b.skip(3),
                    },
                    b.len() as int,
                ),
            )
        }
    }

    proof fn lemma_unpack_min_size(b: Seq<u8>) {
    }

    fn unpack(data: &'a [u8]) -> (r: Result<(CommandComplete<'a>, usize), Error>) {
        if data.len() < 3 {
            return Err(err_not_enough_data());
        }
        let operation = OperationId::from_wire(read_u16_le(data, 0));
        let status = Status::from_wire(data[2]);
        let rest = vstd::slice::slice_subrange(data, 3, data.len());
        proof {
            assert(rest@ =~= data@.skip(3));
        }
        Ok((CommandComplete { operation, status, data: rest }, data.len()))
    }
}

/// An accepted-but-pending command: `opcode:u16, status:u8`, exactly the
/// first 3 payload bytes.
#[derive(Clone, Copy, Debug, PartialEq, Eq, Structural)]
pub struct CommandStatus {
    pub operation: OperationId,
    pub status: Status,
}

impl View for CommandStatus {
    type V = CommandStatus;

    open spec fn view(&self) -> CommandStatus {
        *self
    }
}

impl<'a> Unpack<'a> for CommandStatus {
    open spec fn spec_min_size() -> int {
        3
    }

    open spec fn spec_unpack(b: Seq<u8>) -> Result<(CommandStatus, int), Error> {
        if b.len() < 3 {
            Err(not_enough_data())
        } else {
            Ok(
                (
                    CommandStatus {
                        operation: OperationId::spec_from_wire(le16(b.subrange(0, 2)) as u16),
                        status: Status::spec_from_wire(b[2]),
                    },
                    3,
                ),
            )
        }
    }

    proof fn lemma_unpack_min_size(b: Seq<u8>) {
    }

    fn unpack(data: &'a [u8]) -> (r: Result<(CommandStatus, usize), Error>) {
        if data.len() < 3 {
            return Err(err_not_enough_data());
        }
        let operation = OperationId::from_wire(read_u16_le(data, 0));
        let status = Status::from_wire(data[2]);
        Ok((CommandStatus { operation, status }, 3))
    }
}

} // verus!
