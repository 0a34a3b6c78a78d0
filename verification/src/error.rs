//! The error type shared by the decoding functions.

use crate::events::EventsDecodingError;
use crate::metadata::MetadataError;
use vstd::prelude::*;

verus! {

/// Why a decode call gave up.
#[derive(Clone, Copy, Debug, PartialEq, Eq, Structural)]
pub enum DecodeError {
    /// The bytes are not a valid wire encoding of the value that was expected
    /// at this place: the input ended early, or a length prefix, a boolean, a
    /// phase tag or a string was malformed.
    Codec,
    /// The metadata lacks an entry that the input refers to.
    Metadata(MetadataError),
    /// The type definitions describe a value that cannot be read.
    EventsDecoding(EventsDecodingError),
}

} // verus!
