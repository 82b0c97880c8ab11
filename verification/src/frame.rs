//! The flat frame that carries commands and events.
//!
//! Both directions of the transport use the same 6-byte header: a 2-byte
//! little-endian code (an operation for commands, an event identifier for
//! events), a 2-byte controller index and a 2-byte payload length, followed
//! by that many payload bytes.  The transport itself reads and writes the
//! bytes; this module only encodes and decodes them.

use vstd::prelude::*;

use crate::endian::{le16, le16_bytes, lemma_le16_roundtrip, read_u16_le, write_u16_le};
use crate::error::{err_not_enough_data, not_enough_data, Error};
use crate::pack::{Pack, PackFixed, UnpackFixed};

verus! {

/// The 6-byte header of a command or event frame.
#[derive(Clone, Copy, Debug, PartialEq, Eq, Structural)]
pub struct FrameHeader {
    /// Operation code of a command, or event identifier of an event.
    pub code: u16,
    /// The controller the frame concerns.
    pub index: u16,
    /// Number of payload bytes that follow the header.
    pub length: u16,
}

impl View for FrameHeader {
    type V = FrameHeader;

    open spec fn view(&self) -> FrameHeader {
        *self
    }
}

impl PackFixed for FrameHeader {
    open spec fn spec_size() -> int {
        6
    }

    open spec fn spec_pack(&self) -> Seq<u8> {
        le16_bytes(self.code) + le16_bytes(self.index) + le16_bytes(self.length)
    }

    proof fn lemma_pack_size(&self) {
    }

    fn pack(&self, data: &mut Vec<u8>) -> (r: Result<(), Error>) {
        if data.len() != 6 {
            return Err(err_not_enough_data());
        }
        write_u16_le(data, 0, self.code);
        write_u16_le(data, 2, self.index);
        write_u16_le(data, 4, self.length);
        proof {
            assert(data@ =~= self.spec_pack());
        }
        Ok(())
    }
}

impl UnpackFixed for FrameHeader {
    open spec fn spec_size() -> int {
        6
    }

    open spec fn spec_unpack(b: Seq<u8>) -> Result<FrameHeader, Error> {
        if b.len() != 6 {
            Err(not_enough_data())
        } else {
            Ok(
                FrameHeader {
                    code: le16(b.subrange(0, 2)) as u16,
                    index: le16(b.subrange(2, 4)) as u16,
                    length: le16(b.subrange(4, 6)) as u16,
                },
            )
        }
    }

    proof fn lemma_unpack_exact_size(b: Seq<u8>) {
    }

    fn unpack(data: &[u8]) -> (r: Result<FrameHeader, Error>) {
        if data.len() != 6 {
            return Err(err_not_enough_data());
        }
        let code = read_u16_le(data, 0);
        let index = read_u16_le(data, 2);
        let length = read_u16_le(data, 4);
        Ok(FrameHeader { code, index, length })
    }
}

/// Packing a header and unpacking the bytes gives the header back,
/// whatever its fields hold.
pub proof fn lemma_frame_header_roundtrip(h: FrameHeader)
    ensures
        <FrameHeader as UnpackFixed>::spec_unpack(<FrameHeader as PackFixed>::spec_pack(&h))
            == Ok::<FrameHeader, Error>(h),
{
    let b = <FrameHeader as PackFixed>::spec_pack(&h);
    assert(b.subrange(0, 2) =~= le16_bytes(h.code));
    assert(b.subrange(2, 4) =~= le16_bytes(h.index));
    assert(b.subrange(4, 6) =~= le16_bytes(h.length));
    lemma_le16_roundtrip(h.code);
    lemma_le16_roundtrip(h.index);
    lemma_le16_roundtrip(h.length);
}

/// A ghost-level command frame: header fields plus the payload bytes.
pub struct CommandFrameModel {
    pub opcode: u16,
    pub index: u16,
    pub data: Seq<u8>,
}

/// An outbound command: an operation code, a controller index, and the
/// command's parameter bytes, framed as header plus body.
pub struct CommandFrame<'a> {
    /// Operation code of the command.
    pub opcode: u16,
    /// The controller the command is addressed to.
    pub index: u16,
    /// Parameter bytes of the command.
    pub data: &'a [u8],
}

impl<'a> View for CommandFrame<'a> {
    type V = CommandFrameModel;

    open spec fn view(&self) -> CommandFrameModel {
        CommandFrameModel { opcode: self.opcode, index: self.index, data: self.data@ }
    }
}

impl<'a> Pack for CommandFrame<'a> {
    open spec fn wf(&self) -> bool {
        self.data@.len() <= 0xffff
    }

    open spec fn spec_pack(&self) -> Seq<u8> {
        le16_bytes(self.opcode) + le16_bytes(self.index) + le16_bytes(self.data@.len() as u16)
            + self.data@
    }

    fn pack(&self, data: &mut Vec<u8>) -> (r: Result<usize, Error>) {
        let n = self.data.len();
        let total = 6 + n;
        if data.len() < total {
            return Err(err_not_enough_data());
        }
        write_u16_le(data, 0, self.opcode);
        write_u16_le(data, 2, self.index);
        write_u16_le(data, 4, n as u16);
        let ghost header_done = data@;
        let mut i: usize = 0;
        while i < n
            invariant
                i <= n,
                total == 6 + n,
                n == self.data@.len(),
                total <= data@.len(),
                data@.len() == header_done.len(),
                forall|j: int| 0 <= j < 6 ==> data@[j] == header_done[j],
                forall|j: int| 0 <= j < i ==> data@[6 + j] == self.data@[j],
                forall|j: int| 6 + i <= j < data@.len() ==> data@[j] == header_done[j],
            decreases n - i,
        {
            data.set(6 + i, self.data[i]);
            i += 1;
        }
        proof {
            assert(data@ =~= self.spec_pack() + old(data)@.skip(total as int));
        }
        Ok(total)
    }
}

} // verus!
