//! Packing and unpacking contracts.
//!
//! Every structure of the protocol implements one of these traits.  Each
//! implementer supplies an abstract decoder (or encoder) over byte
//! sequences, and its executable method is proved to agree with it.
//!
//! The fixed-size forms consume (or fill) a buffer of exactly one size;
//! the variable-size forms consume at least a minimum and report how many
//! bytes they used, leaving the remainder for the caller.

use vstd::prelude::*;

use crate::error::{not_enough_data, Error};

verus! {

/// Fixed-size encoding: the value always occupies exactly
/// [`spec_size`](PackFixed::spec_size) bytes on the wire.
pub trait PackFixed: View + Sized {
    /// The exact number of bytes the structure occupies on the wire.
    spec fn spec_size() -> int;

    /// The bytes this value occupies on the wire.
    spec fn spec_pack(&self) -> Seq<u8>;

    /// Every implementer's encoding has the fixed size.
    proof fn lemma_pack_size(&self)
        ensures
            self.spec_pack().len() == Self::spec_size(),
    ;

    /// Overwrite the caller's buffer with the encoding.  A buffer of any
    /// other length is rejected and left unchanged.
    fn pack(&self, data: &mut Vec<u8>) -> (r: Result<(), Error>)
        ensures
            old(data)@.len() == Self::spec_size() ==> r == Ok::<(), Error>(()) && final(data)@
                == self.spec_pack(),
            old(data)@.len() != Self::spec_size() ==> r == Err::<(), Error>(not_enough_data())
                && final(data)@ == old(data)@,
    ;
}

/// Fixed-size decoding: the input must be exactly
/// [`spec_size`](UnpackFixed::spec_size) bytes; any other length is a
/// `NotEnoughData` error.
pub trait UnpackFixed: View + Sized {
    /// The exact number of bytes the structure occupies on the wire.
    spec fn spec_size() -> int;

    /// The abstract decoder: what any byte sequence decodes to, or with
    /// which error it is rejected.
    spec fn spec_unpack(b: Seq<u8>) -> Result<Self::V, Error>;

    /// Every implementer rejects a buffer whose size is not exactly
    /// [`spec_size`](UnpackFixed::spec_size); in particular every proper
    /// prefix of a valid input is rejected with `NotEnoughData`.
    proof fn lemma_unpack_exact_size(b: Seq<u8>)
        ensures
            b.len() != Self::spec_size() ==> Self::spec_unpack(b) == Err::<Self::V, Error>(
                not_enough_data(),
            ),
    ;

    /// De-serialise from the buffer.  The result agrees with the abstract
    /// decoder, on success and on failure.
    fn unpack(data: &[u8]) -> (r: Result<Self, Error>)
        ensures
            match (r, Self::spec_unpack(data@)) {
                (Ok(v), Ok(m)) => v@ == m,
                (Err(e), Err(m)) => e == m,
                _ => false,
            },
    ;
}

/// Variable-size encoding: the value reports how many bytes it wrote.
pub trait Pack: View + Sized {
    /// The values whose encoding is defined (e.g. a body short enough for
    /// its length field).
    spec fn wf(&self) -> bool;

    /// The bytes this value occupies on the wire.
    spec fn spec_pack(&self) -> Seq<u8>;

    /// Write the encoding over the start of the caller's buffer, leaving
    /// the rest of the buffer as it was, and report the number of bytes
    /// written.  A buffer too short for the encoding is rejected and left
    /// unchanged.
    fn pack(&self, data: &mut Vec<u8>) -> (r: Result<usize, Error>)
        requires
            self.wf(),
        ensures
            match r {
                Ok(n) => self.spec_pack().len() <= old(data)@.len() && n == self.spec_pack().len()
                    && final(data)@ == self.spec_pack() + old(data)@.skip(
                    self.spec_pack().len() as int,
                ),
                Err(e) => old(data)@.len() < self.spec_pack().len() && e == not_enough_data()
                    && final(data)@ == old(data)@,
            },
    ;
}

/// Variable-size decoding: the input must hold at least
/// [`spec_min_size`](Unpack::spec_min_size) bytes; the decoder reports how
/// many bytes it consumed and leaves the remainder to the caller.
pub trait Unpack<'a>: View + Sized {
    /// The minimum number of bytes any value of the structure occupies.
    spec fn spec_min_size() -> int;

    /// The abstract decoder: what any byte sequence decodes to together
    /// with the count of bytes consumed, or with which error it is
    /// rejected.
    spec fn spec_unpack(b: Seq<u8>) -> Result<(Self::V, int), Error>;

    /// Every implementer rejects a buffer shorter than its minimum with
    /// `NotEnoughData`, and never consumes fewer bytes than the minimum
    /// nor more than the buffer holds.
    proof fn lemma_unpack_min_size(b: Seq<u8>)
        ensures
            b.len() < Self::spec_min_size() ==> Self::spec_unpack(b) == Err::<(Self::V, int), Error>(
                not_enough_data(),
            ),
            Self::spec_unpack(b) matches Ok(p) ==> Self::spec_min_size() <= p.1 <= b.len(),
    ;

    /// De-serialise from the buffer, returning the value and the number of
    /// bytes consumed.  The result agrees with the abstract decoder, on
    /// success and on failure.
    fn unpack(data: &'a [u8]) -> (r: Result<(Self, usize), Error>)
        ensures
            match (r, Self::spec_unpack(data@)) {
                (Ok((v, used)), Ok(m)) => v@ == m.0 && used == m.1,
                (Err(e), Err(m)) => e == m,
                _ => false,
            },
    ;
}

} // verus!
