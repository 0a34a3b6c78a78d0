//! Decoding of the event log of a Substrate chain, whose types are known only
//! from the metadata that the chain reports at run time.

use crate::scale::{byte_read, read_byte, read_u32, u32_read};
use vstd::prelude::*;

pub mod error;
pub mod events;
pub mod frame;
pub mod guarantees;
pub mod metadata;
pub mod rpc;
pub mod scale;

pub use crate::error::DecodeError;
pub use crate::events::{
    CompactFault, EventsDecoder, EventsDecodingError, RawEvent, RawEventView, MAX_DEPTH,
};
pub use crate::metadata::{EventMetadata, Metadata, MetadataError, TypeDef, TypeDefPrimitive};

verus! {

/// A phase of a block's execution.
#[derive(Clone, Copy, Debug, PartialEq, Eq, Structural)]
pub enum Phase {
    /// Applying an extrinsic.
    ApplyExtrinsic(u32),
    /// Finalizing the block.
    Finalization,
    /// Initializing the block.
    Initialization,
}

/// Calls `str::eq`. Trusted: two string slices are equal exactly when they
/// hold the same characters.
#[verifier::external_body]
pub(crate) fn str_eq(a: &str, b: &str) -> (r: bool)
    ensures
        r == (a@ == b@),
{
    a == b
}

/// A call of a pallet's function, of a type that is known when the program
/// is compiled.
pub trait Call {
    /// Pallet name.
    const PALLET: &'static str;

    /// Function name.
    const FUNCTION: &'static str;

    /// Returns true if the given pallet and function names match this call.
    fn is_call(pallet: &str, function: &str) -> (r: bool)
        ensures
            r == (Self::PALLET@ == pallet@ && Self::FUNCTION@ == function@),
    {
        str_eq(Self::PALLET, pallet) && str_eq(Self::FUNCTION, function)
    }
}

/// An event of a type that is known when the program is compiled.
pub trait Event: Sized {
    /// Pallet name.
    const PALLET: &'static str;

    /// Event name.
    const EVENT: &'static str;

    /// Decodes the fields of the event from their encoding. Nothing is
    /// assumed of what an implementation returns.
    fn decode(data: &[u8]) -> Result<Self, parity_scale_codec::Error>;

    /// Returns true if the given pallet and event names match this event.
    fn is_event(pallet: &str, event: &str) -> (r: bool)
        ensures
            r == (Self::PALLET@ == pallet@ && Self::EVENT@ == event@),
    {
        str_eq(Self::PALLET, pallet) && str_eq(Self::EVENT, event)
    }
}

/// Bytes that are an encoding already. Where a value is encoded, they stand
/// for themselves: no length is put before them.
#[derive(Clone, Debug, PartialEq, Eq)]
pub struct Encoded(pub Vec<u8>);

impl Encoded {
    /// The encoding: the bytes as they are.
    pub fn encode(&self) -> (r: Vec<u8>)
        ensures
            r@ == self.0@,
    {
        vstd::slice::slice_to_vec(self.0.as_slice())
    }
}

/// Reading a phase: a tag byte, and behind the tag 0 the index of the
/// extrinsic, four little-endian bytes.
pub open spec fn phase_read(input: Seq<u8>) -> Result<(Phase, Seq<u8>), DecodeError> {
    match byte_read(input) {
        Ok((tag, rest)) => if tag == 0 {
            match u32_read(rest) {
                Ok((index, rest)) => Ok((Phase::ApplyExtrinsic(index), rest)),
                Err(e) => Err(e),
            }
        } else if tag == 1 {
            Ok((Phase::Finalization, rest))
        } else if tag == 2 {
            Ok((Phase::Initialization, rest))
        } else {
            Err(DecodeError::Codec)
        },
        Err(e) => Err(e),
    }
}

impl Phase {
    /// Reads a phase and moves the cursor past it.
    pub fn decode(input: &mut &[u8]) -> (r: Result<Phase, DecodeError>)
        ensures
            match r {
                Ok(phase) => phase_read(old(input)@) == Ok::<(Phase, Seq<u8>), DecodeError>(
                    (phase, final(input)@),
                ),
                Err(e) => phase_read(old(input)@) == Err::<(Phase, Seq<u8>), DecodeError>(e),
            },
    {
        let tag = match read_byte(input) {
            Ok(tag) => tag,
            Err(e) => {
                return Err(e);
            },
        };
        if tag == 0 {
            match read_u32(input) {
                Ok(index) => Ok(Phase::ApplyExtrinsic(index)),
                Err(e) => Err(e),
            }
        } else if tag == 1 {
            Ok(Phase::Finalization)
        } else if tag == 2 {
            Ok(Phase::Initialization)
        } else {
            Err(DecodeError::Codec)
        }
    }
}

} // verus!
