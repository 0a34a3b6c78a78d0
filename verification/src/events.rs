//! Decoding of the events that a block emitted.
//!
//! The bytes of an event's fields can be told apart from what follows them
//! only by walking the type definitions of the metadata. [`walk_type`] says, as
//! a function of the type definitions and the input, which bytes one value
//! takes and which bytes are written for it; [`EventsDecoder::decode_type`]
//! does so. On top of it stand the reading of one record ([`record_read`]) and
//! of a whole stream of them ([`stream_read`],
//! [`EventsDecoder::decode_events`]).

use crate::error::DecodeError;
use crate::metadata::{EventMetadata, Metadata, MetadataError, TypeDef, TypeDefPrimitive};
use crate::scale::{
    bool_walked, byte_read, bytes_walked, compact_u128_walked, compact_u16_walked,
    compact_u32_encoded, compact_u32_walked, compact_u64_walked, compact_u8_walked, copy_bool,
    copy_bytes, copy_compact_u128, copy_compact_u16, copy_compact_u32, copy_compact_u64,
    copy_compact_u8, copy_str, count_read, encode_compact_u32, read_byte, read_count, str_walked,
    walked_as, Walked,
};
use crate::{phase_read, Event, Phase};
use vstd::prelude::*;

verus! {

/// The number of type definitions that the decoder follows, one inside the
/// other, before it gives up.
pub const MAX_DEPTH: u32 = 256;

/// Why a compact-encoded type cannot be read.
#[derive(Clone, Copy, Debug, PartialEq, Eq, Structural)]
pub enum CompactFault {
    /// The composite that is encoded compactly has no field, or several.
    NotSingleField,
    /// The single field of the composite is not a primitive.
    FieldNotPrimitive,
    /// What is encoded compactly is neither a primitive nor a composite.
    NotPrimitiveOrComposite,
}

/// A type definition that the decoder cannot follow.
#[derive(Clone, Copy, Debug, PartialEq, Eq, Structural)]
pub enum EventsDecodingError {
    /// The primitive has no wire width that can be relied on.
    UnsupportedPrimitive(TypeDefPrimitive),
    /// The primitive has no compact encoding: it is not an unsigned integer of
    /// at most 128 bits.
    InvalidCompactPrimitive(TypeDefPrimitive),
    /// The compact encoding is applied to a type that has none.
    InvalidCompactType(CompactFault),
    /// The discriminant byte of a tagged union names no variant.
    VariantNotFound(u8),
    /// Sequences of bits cannot be decoded.
    BitSequenceUnimplemented,
    /// The types are nested more deeply than [`MAX_DEPTH`].
    DepthLimitExceeded,
}

/// The bytes of one event, as they were on the wire.
#[derive(Clone, Debug, PartialEq, Eq)]
pub struct RawEvent {
    /// The name of the pallet that emitted the event.
    pub pallet: String,
    /// The index of that pallet.
    pub pallet_index: u8,
    /// The name of the event: of the variant of the pallet's event type.
    pub variant: String,
    /// The index of that variant.
    pub variant_index: u8,
    /// The encoded fields of the event, without its topics.
    pub data: Vec<u8>,
}

/// A [`RawEvent`], as contracts see it.
pub struct RawEventView {
    pub pallet: Seq<char>,
    pub pallet_index: u8,
    pub variant: Seq<char>,
    pub variant_index: u8,
    pub data: Seq<u8>,
}

impl View for RawEvent {
    type V = RawEventView;

    open spec fn view(&self) -> RawEventView {
        RawEventView {
            pallet: self.pallet@,
            pallet_index: self.pallet_index,
            variant: self.variant@,
            variant_index: self.variant_index,
            data: self.data@,
        }
    }
}

impl RawEvent {
    /// The event was emitted as the one that `E` stands for: the names are
    /// those of `E`.
    pub open spec fn is_a<E: Event>(&self) -> bool {
        self.pallet@ == E::PALLET@ && self.variant@ == E::EVENT@
    }

    /// Attempts to decode this event into a specific event.
    ///
    /// Where the names are not those of `E` the result is `Ok(None)`,
    /// whatever the data holds, and `E::decode` is not called. Where they
    /// are, the result is [`found`] of what `E::decode` makes of the data.
    pub fn as_event<E: Event>(&self) -> (r: Result<Option<E>, parity_scale_codec::Error>)
        ensures
            !self.is_a::<E>() ==> r matches Ok(None),
            self.is_a::<E>() ==> !(r matches Ok(None)),
    {
        if E::is_event(self.pallet.as_str(), self.variant.as_str()) {
            found(E::decode(self.data.as_slice()))
        } else {
            Ok(None)
        }
    }
}

/// The answer of [`RawEvent::as_event`] where the names are those of the
/// event type and the type's own decoding gave `decoded`: the event that was
/// decoded, or the error.
pub fn found<E>(decoded: Result<E, parity_scale_codec::Error>) -> (r: Result<
    Option<E>,
    parity_scale_codec::Error,
>)
    ensures
        r == match decoded {
            Ok(event) => Ok::<Option<E>, parity_scale_codec::Error>(Some(event)),
            Err(e) => Err(e),
        },
{
    match decoded {
        Ok(event) => Ok(Some(event)),
        Err(e) => Err(e),
    }
}

/// What reading one record yields: the phase, the event, and the input that
/// follows the record.
pub struct RecordRead {
    pub phase: Phase,
    pub event: RawEventView,
    pub rest: Seq<u8>,
}

/// What reading a run of records yields: the events with their phases, in
/// the order of the records, and the input that follows the last record.
pub struct StreamRead {
    pub events: Seq<(Phase, RawEventView)>,
    pub rest: Seq<u8>,
}

/// `r`, with `out` written before it.
pub open spec fn prefixed(out: Seq<u8>, r: Result<Walked, DecodeError>) -> Result<
    Walked,
    DecodeError,
> {
    match r {
        Ok(w) => Ok(Walked { rest: w.rest, out: out + w.out }),
        Err(e) => Err(e),
    }
}

/// Nothing read, nothing written.
pub open spec fn unmoved(input: Seq<u8>) -> Result<Walked, DecodeError> {
    Ok(Walked { rest: input, out: Seq::<u8>::empty() })
}

/// Moving a primitive. `Char` and the integers of 256 bits are refused
/// whatever the input holds.
pub open spec fn walk_primitive(primitive: TypeDefPrimitive, input: Seq<u8>) -> Result<
    Walked,
    DecodeError,
> {
    match primitive {
        TypeDefPrimitive::Bool => bool_walked(input),
        TypeDefPrimitive::Str => str_walked(input),
        TypeDefPrimitive::U8 | TypeDefPrimitive::I8 => bytes_walked(input, 1),
        TypeDefPrimitive::U16 | TypeDefPrimitive::I16 => bytes_walked(input, 2),
        TypeDefPrimitive::U32 | TypeDefPrimitive::I32 => bytes_walked(input, 4),
        TypeDefPrimitive::U64 | TypeDefPrimitive::I64 => bytes_walked(input, 8),
        TypeDefPrimitive::U128 | TypeDefPrimitive::I128 => bytes_walked(input, 16),
        TypeDefPrimitive::Char | TypeDefPrimitive::U256 | TypeDefPrimitive::I256 => Err(
            DecodeError::EventsDecoding(EventsDecodingError::UnsupportedPrimitive(primitive)),
        ),
    }
}

/// Moving a compact integer whose full form is `primitive`. Only the unsigned
/// integers of at most 128 bits have a compact form.
pub open spec fn walk_compact_primitive(primitive: TypeDefPrimitive, input: Seq<u8>) -> Result<
    Walked,
    DecodeError,
> {
    match primitive {
        TypeDefPrimitive::U8 => compact_u8_walked(input),
        TypeDefPrimitive::U16 => compact_u16_walked(input),
        TypeDefPrimitive::U32 => compact_u32_walked(input),
        TypeDefPrimitive::U64 => compact_u64_walked(input),
        TypeDefPrimitive::U128 => compact_u128_walked(input),
        _ => Err(
            DecodeError::EventsDecoding(EventsDecodingError::InvalidCompactPrimitive(primitive)),
        ),
    }
}

/// Moving a value of the compact type whose inner type is `inner`.
///
/// The inner type is a primitive, or a composite whose single field is one:
/// the compact form of a struct is that of its only field. A compact type
/// inside a compact type is read as a compact `u128`: some chains describe
/// their balances so.
pub open spec fn walk_compact(types: Seq<TypeDef>, inner: u32, input: Seq<u8>) -> Result<
    Walked,
    DecodeError,
> {
    if inner as int >= types.len() {
        Err(DecodeError::Metadata(MetadataError::TypeNotFound(inner)))
    } else {
        match types[inner as int] {
            TypeDef::Primitive(primitive) => walk_compact_primitive(primitive, input),
            TypeDef::Composite { fields } => if fields@.len() != 1 {
                Err(
                    DecodeError::EventsDecoding(
                        EventsDecodingError::InvalidCompactType(CompactFault::NotSingleField),
                    ),
                )
            } else if fields@[0] as int >= types.len() {
                Err(DecodeError::Metadata(MetadataError::TypeNotFound(fields@[0])))
            } else {
                match types[fields@[0] as int] {
                    TypeDef::Primitive(primitive) => walk_compact_primitive(primitive, input),
                    _ => Err(
                        DecodeError::EventsDecoding(
                            EventsDecodingError::InvalidCompactType(
                                CompactFault::FieldNotPrimitive,
                            ),
                        ),
                    ),
                }
            },
            TypeDef::Compact { .. } => compact_u128_walked(input),
            _ => Err(
                DecodeError::EventsDecoding(
                    EventsDecodingError::InvalidCompactType(CompactFault::NotPrimitiveOrComposite),
                ),
            ),
        }
    }
}

/// Moving one value of the type `id`: which input is left behind it, and
/// which bytes are written for it. `depth` is the number of type definitions
/// that may still be entered, this one included.
pub open spec fn walk_type(types: Seq<TypeDef>, id: u32, input: Seq<u8>, depth: nat) -> Result<
    Walked,
    DecodeError,
>
    decreases depth, 0nat,
{
    if depth == 0 {
        Err(DecodeError::EventsDecoding(EventsDecodingError::DepthLimitExceeded))
    } else if id as int >= types.len() {
        Err(DecodeError::Metadata(MetadataError::TypeNotFound(id)))
    } else {
        let below = (depth - 1) as nat;
        match types[id as int] {
            TypeDef::Composite { fields } => walk_each(types, fields@, input, below),
            TypeDef::Variant { variants } => match byte_read(input) {
                Ok((index, rest)) => if (index as int) < variants@.len() {
                    prefixed(seq![index], walk_each(types, variants@[index as int]@, rest, below))
                } else {
                    Err(DecodeError::EventsDecoding(EventsDecodingError::VariantNotFound(index)))
                },
                Err(e) => Err(e),
            },
            TypeDef::Sequence { element } => match count_read(input) {
                Ok((count, rest)) => prefixed(
                    compact_u32_encoded(count),
                    walk_repeat(types, element, count as nat, rest, below),
                ),
                Err(e) => Err(e),
            },
            TypeDef::Array { element, len } => walk_repeat(types, element, len as nat, input, below),
            TypeDef::Tuple { elements } => walk_each(types, elements@, input, below),
            TypeDef::Primitive(primitive) => walk_primitive(primitive, input),
            TypeDef::Compact { inner } => walk_compact(types, inner, input),
            TypeDef::BitSequence => Err(
                DecodeError::EventsDecoding(EventsDecodingError::BitSequenceUnimplemented),
            ),
        }
    }
}

/// Moving one value of each of the types `ids`, in order.
pub open spec fn walk_each(types: Seq<TypeDef>, ids: Seq<u32>, input: Seq<u8>, depth: nat) -> Result<
    Walked,
    DecodeError,
>
    decreases depth, ids.len() + 1,
{
    if ids.len() == 0 {
        unmoved(input)
    } else {
        match walk_type(types, ids[0], input, depth) {
            Ok(w) => prefixed(w.out, walk_each(types, ids.skip(1), w.rest, depth)),
            Err(e) => Err(e),
        }
    }
}

/// Moving `count` values of the type `id`, one after the other.
pub open spec fn walk_repeat(
    types: Seq<TypeDef>,
    id: u32,
    count: nat,
    input: Seq<u8>,
    depth: nat,
) -> Result<Walked, DecodeError>
    decreases depth, count + 1,
{
    if count == 0 {
        unmoved(input)
    } else {
        match walk_type(types, id, input, depth) {
            Ok(w) => prefixed(w.out, walk_repeat(types, id, (count - 1) as nat, w.rest, depth)),
            Err(e) => Err(e),
        }
    }
}

/// Passing over the topics that close a record: a count, and that many
/// hashes of `hash_len` bytes each.
pub open spec fn topics_skipped(input: Seq<u8>, hash_len: nat) -> Result<Seq<u8>, DecodeError> {
    match count_read(input) {
        Ok((count, rest)) => if count as nat * hash_len <= rest.len() {
            Ok(rest.skip((count as nat * hash_len) as int))
        } else {
            Err(DecodeError::Codec)
        },
        Err(e) => Err(e),
    }
}

/// Reading one record: the phase, the index of the pallet, the index of the
/// variant, the fields that the metadata declares for the two indices, and
/// the topics. The event holds what was written for the fields.
pub open spec fn record_read(metadata: Metadata, hash_len: nat, input: Seq<u8>) -> Result<
    RecordRead,
    DecodeError,
> {
    match phase_read(input) {
        Ok((phase, rest)) => match byte_read(rest) {
            Ok((pallet_index, rest)) => match byte_read(rest) {
                Ok((variant_index, rest)) => match metadata.event_of(pallet_index, variant_index) {
                    Some(event) => match walk_each(
                        metadata.types(),
                        event.field_types(),
                        rest,
                        MAX_DEPTH as nat,
                    ) {
                        Ok(w) => match topics_skipped(w.rest, hash_len) {
                            Ok(rest) => Ok(
                                RecordRead {
                                    phase,
                                    event: RawEventView {
                                        pallet: event.pallet_name(),
                                        pallet_index,
                                        variant: event.event_name(),
                                        variant_index,
                                        data: w.out,
                                    },
                                    rest,
                                },
                            ),
                            Err(e) => Err(e),
                        },
                        Err(e) => Err(e),
                    },
                    None => Err(
                        DecodeError::Metadata(
                            MetadataError::EventNotFound(pallet_index, variant_index),
                        ),
                    ),
                },
                Err(e) => Err(e),
            },
            Err(e) => Err(e),
        },
        Err(e) => Err(e),
    }
}

/// `r`, with `events` standing before its events.
pub open spec fn preceded(events: Seq<(Phase, RawEventView)>, r: Result<StreamRead, DecodeError>)
    -> Result<StreamRead, DecodeError> {
    match r {
        Ok(s) => Ok(StreamRead { events: events + s.events, rest: s.rest }),
        Err(e) => Err(e),
    }
}

/// Reading `count` records, one after the other. The first record that cannot
/// be read fails the whole run.
pub open spec fn records_read(metadata: Metadata, hash_len: nat, count: nat, input: Seq<u8>)
    -> Result<StreamRead, DecodeError>
    decreases count,
{
    if count == 0 {
        Ok(StreamRead { events: Seq::empty(), rest: input })
    } else {
        match record_read(metadata, hash_len, input) {
            Ok(record) => preceded(
                seq![(record.phase, record.event)],
                records_read(metadata, hash_len, (count - 1) as nat, record.rest),
            ),
            Err(e) => Err(e),
        }
    }
}

/// Reading a stream of events: the count of the records, then the records.
pub open spec fn stream_read(metadata: Metadata, hash_len: nat, input: Seq<u8>) -> Result<
    StreamRead,
    DecodeError,
> {
    match count_read(input) {
        Ok((count, rest)) => records_read(metadata, hash_len, count as nat, rest),
        Err(e) => Err(e),
    }
}

/// The events of `v`, each as contracts see it.
pub open spec fn events_view(v: Seq<(Phase, RawEvent)>) -> Seq<(Phase, RawEventView)> {
    v.map_values(|e: (Phase, RawEvent)| (e.0, e.1@))
}

/// Writing `a`, then `b`, then what `r` writes is writing `a + b`, then what
/// `r` writes.
pub proof fn lemma_prefixed_twice(a: Seq<u8>, b: Seq<u8>, r: Result<Walked, DecodeError>)
    ensures
        prefixed(a, prefixed(b, r)) == prefixed(a + b, r),
{
    match r {
        Ok(w) => {
            assert(a + (b + w.out) =~= (a + b) + w.out);
        },
        Err(_) => {},
    }
}

/// Writing nothing before `r` leaves `r` as it is.
pub proof fn lemma_prefixed_nothing(r: Result<Walked, DecodeError>)
    ensures
        prefixed(Seq::<u8>::empty(), r) == r,
{
    match r {
        Ok(w) => {
            assert(Seq::<u8>::empty() + w.out =~= w.out);
        },
        Err(_) => {},
    }
}

/// Events before events before `r` are their concatenation before `r`.
pub proof fn lemma_preceded_twice(
    a: Seq<(Phase, RawEventView)>,
    b: Seq<(Phase, RawEventView)>,
    r: Result<StreamRead, DecodeError>,
)
    ensures
        preceded(a, preceded(b, r)) == preceded(a + b, r),
{
    match r {
        Ok(s) => {
            assert(a + (b + s.events) =~= (a + b) + s.events);
        },
        Err(_) => {},
    }
}

/// No events before `r` leave `r` as it is.
pub proof fn lemma_preceded_nothing(r: Result<StreamRead, DecodeError>)
    ensures
        preceded(Seq::empty(), r) == r,
{
    match r {
        Ok(s) => {
            assert(Seq::<(Phase, RawEventView)>::empty() + s.events =~= s.events);
        },
        Err(_) => {},
    }
}

/// The decoder of events: the metadata of a chain, and the width of the
/// chain's hashes.
#[derive(Clone, Debug)]
pub struct EventsDecoder {
    metadata: Metadata,
    hash_len: usize,
}

impl EventsDecoder {
    /// The metadata that the decoder reads the types and events from.
    pub closed spec fn metadata(&self) -> Metadata {
        self.metadata
    }

    /// The number of bytes of one topic hash.
    pub closed spec fn hash_len(&self) -> nat {
        self.hash_len as nat
    }

    /// A decoder for the chain that `metadata` describes, whose hashes are
    /// `hash_len` bytes wide.
    pub fn new(metadata: Metadata, hash_len: usize) -> (r: Self)
        ensures
            r.metadata() == metadata,
            r.hash_len() == hash_len,
    {
        EventsDecoder { metadata, hash_len }
    }

    /// Moves a compact integer whose full form is `primitive`.
    fn walk_compact_primitive(
        &self,
        primitive: TypeDefPrimitive,
        input: &mut &[u8],
        output: &mut Vec<u8>,
    ) -> (r: Result<(), DecodeError>)
        ensures
            walked_as(
                r,
                final(input)@,
                old(output)@,
                final(output)@,
                walk_compact_primitive(primitive, old(input)@),
            ),
    {
        match primitive {
            TypeDefPrimitive::U8 => copy_compact_u8(input, output),
            TypeDefPrimitive::U16 => copy_compact_u16(input, output),
            TypeDefPrimitive::U32 => copy_compact_u32(input, output),
            TypeDefPrimitive::U64 => copy_compact_u64(input, output),
            TypeDefPrimitive::U128 => copy_compact_u128(input, output),
            _ => Err(
                DecodeError::EventsDecoding(
                    EventsDecodingError::InvalidCompactPrimitive(primitive),
                ),
            ),
        }
    }

    /// Moves a primitive.
    fn walk_primitive(
        &self,
        primitive: TypeDefPrimitive,
        input: &mut &[u8],
        output: &mut Vec<u8>,
    ) -> (r: Result<(), DecodeError>)
        ensures
            walked_as(
                r,
                final(input)@,
                old(output)@,
                final(output)@,
                walk_primitive(primitive, old(input)@),
            ),
    {
        match primitive {
            TypeDefPrimitive::Bool => copy_bool(input, output),
            TypeDefPrimitive::Str => copy_str(input, output),
            TypeDefPrimitive::U8 | TypeDefPrimitive::I8 => copy_bytes(input, 1, output),
            TypeDefPrimitive::U16 | TypeDefPrimitive::I16 => copy_bytes(input, 2, output),
            TypeDefPrimitive::U32 | TypeDefPrimitive::I32 => copy_bytes(input, 4, output),
            TypeDefPrimitive::U64 | TypeDefPrimitive::I64 => copy_bytes(input, 8, output),
            TypeDefPrimitive::U128 | TypeDefPrimitive::I128 => copy_bytes(input, 16, output),
            TypeDefPrimitive::Char | TypeDefPrimitive::U256 | TypeDefPrimitive::I256 => Err(
                DecodeError::EventsDecoding(EventsDecodingError::UnsupportedPrimitive(primitive)),
            ),
        }
    }

    /// Moves a value of the compact type whose inner type is `inner`.
    fn walk_compact(&self, inner: u32, input: &mut &[u8], output: &mut Vec<u8>) -> (r: Result<
        (),
        DecodeError,
    >)
        ensures
            walked_as(
                r,
                final(input)@,
                old(output)@,
                final(output)@,
                walk_compact(self.metadata().types(), inner, old(input)@),
            ),
    {
        let def = match self.metadata.resolve_type(inner) {
            Some(def) => def,
            None => {
                return Err(DecodeError::Metadata(MetadataError::TypeNotFound(inner)));
            },
        };
        match def {
            TypeDef::Primitive(primitive) => self.walk_compact_primitive(*primitive, input, output),
            TypeDef::Composite { fields } => {
                if fields.len() != 1 {
                    return Err(
                        DecodeError::EventsDecoding(
                            EventsDecodingError::InvalidCompactType(CompactFault::NotSingleField),
                        ),
                    );
                }
                let field = fields[0];
                match self.metadata.resolve_type(field) {
                    Some(TypeDef::Primitive(primitive)) => self.walk_compact_primitive(
                        *primitive,
                        input,
                        output,
                    ),
                    Some(_) => Err(
                        DecodeError::EventsDecoding(
                            EventsDecodingError::InvalidCompactType(
                                CompactFault::FieldNotPrimitive,
                            ),
                        ),
                    ),
                    None => Err(DecodeError::Metadata(MetadataError::TypeNotFound(field))),
                }
            },
            // Some chains describe a balance as a compact type whose inner
            // type is a compact type again; it is a compact `u128` on the
            // wire.
            TypeDef::Compact { .. } => copy_compact_u128(input, output),
            _ => Err(
                DecodeError::EventsDecoding(
                    EventsDecodingError::InvalidCompactType(CompactFault::NotPrimitiveOrComposite),
                ),
            ),
        }
    }

    /// Moves one value of the type `type_id`, entering at most `depth` type
    /// definitions.
    fn walk(&self, type_id: u32, input: &mut &[u8], output: &mut Vec<u8>, depth: u32) -> (r: Result<
        (),
        DecodeError,
    >)
        ensures
            walked_as(
                r,
                final(input)@,
                old(output)@,
                final(output)@,
                walk_type(self.metadata().types(), type_id, old(input)@, depth as nat),
            ),
        decreases depth, 0nat,
    {
        if depth == 0 {
            return Err(DecodeError::EventsDecoding(EventsDecodingError::DepthLimitExceeded));
        }
        let def = match self.metadata.resolve_type(type_id) {
            Some(def) => def,
            None => {
                return Err(DecodeError::Metadata(MetadataError::TypeNotFound(type_id)));
            },
        };
        match def {
            TypeDef::Composite { fields } => self.walk_each(
                fields.as_slice(),
                input,
                output,
                depth - 1,
            ),
            TypeDef::Variant { variants } => {
                let index = match read_byte(input) {
                    Ok(index) => index,
                    Err(e) => {
                        return Err(e);
                    },
                };
                let ghost before = output@;
                output.push(index);
                assert(output@ == before + seq![index]);
                if index as usize >= variants.len() {
                    return Err(
                        DecodeError::EventsDecoding(EventsDecodingError::VariantNotFound(index)),
                    );
                }
                let r = self.walk_each(variants[index as usize].as_slice(), input, output, depth - 1);
                proof {
                    if let Ok(w) = walk_each(
                        self.metadata().types(),
                        variants@[index as int]@,
                        old(input)@.skip(1),
                        (depth - 1) as nat,
                    ) {
                        assert(before + (seq![index] + w.out) == (before + seq![index]) + w.out);
                    }
                }
                r
            },
            TypeDef::Sequence { element } => {
                let count = match read_count(input) {
                    Ok(count) => count,
                    Err(e) => {
                        return Err(e);
                    },
                };
                let ghost before = output@;
                let ghost rest = input@;
                encode_compact_u32(count, output);
                let r = self.walk_repeat(*element, count, input, output, depth - 1);
                proof {
                    if let Ok(w) = walk_repeat(
                        self.metadata().types(),
                        *element,
                        count as nat,
                        rest,
                        (depth - 1) as nat,
                    ) {
                        assert(before + (compact_u32_encoded(count) + w.out) == (before
                            + compact_u32_encoded(count)) + w.out);
                    }
                }
                r
            },
            TypeDef::Array { element, len } => self.walk_repeat(
                *element,
                *len,
                input,
                output,
                depth - 1,
            ),
            TypeDef::Tuple { elements } => self.walk_each(
                elements.as_slice(),
                input,
                output,
                depth - 1,
            ),
            TypeDef::Primitive(primitive) => self.walk_primitive(*primitive, input, output),
            TypeDef::Compact { inner } => self.walk_compact(*inner, input, output),
            TypeDef::BitSequence => Err(
                DecodeError::EventsDecoding(EventsDecodingError::BitSequenceUnimplemented),
            ),
        }
    }

    /// Moves one value of each of the types `ids`, in order.
    fn walk_each(&self, ids: &[u32], input: &mut &[u8], output: &mut Vec<u8>, depth: u32) -> (r:
        Result<(), DecodeError>)
        ensures
            walked_as(
                r,
                final(input)@,
                old(output)@,
                final(output)@,
                walk_each(self.metadata().types(), ids@, old(input)@, depth as nat),
            ),
        decreases depth, 1nat,
    {
        let ghost types = self.metadata().types();
        let ghost whole = walk_each(types, ids@, old(input)@, depth as nat);
        let ghost written = Seq::<u8>::empty();
        assert(output@ == old(output)@ + written);
        proof {
            assert(ids@.skip(0) == ids@);
            lemma_prefixed_nothing(whole);
        }
        let mut i: usize = 0;
        while i < ids.len()
            invariant
                i <= ids.len(),
                types == self.metadata().types(),
                whole == walk_each(types, ids@, old(input)@, depth as nat),
                output@ == old(output)@ + written,
                whole == prefixed(written, walk_each(types, ids@.skip(i as int), input@, depth as nat)),
            decreases ids.len() - i,
        {
            let ghost here = input@;
            let ghost tail = ids@.skip(i as int);
            assert(tail.len() > 0 && tail[0] == ids@[i as int]);
            assert(tail.skip(1) == ids@.skip(i + 1));
            match self.walk(ids[i], input, output, depth) {
                Ok(()) => {
                    proof {
                        let w = walk_type(types, ids@[i as int], here, depth as nat)->Ok_0;
                        lemma_prefixed_twice(
                            written,
                            w.out,
                            walk_each(types, ids@.skip(i + 1), w.rest, depth as nat),
                        );
                        assert(old(output)@ + written + w.out == old(output)@ + (written + w.out));
                        written = written + w.out;
                    }
                },
                Err(e) => {
                    return Err(e);
                },
            }
            i += 1;
        }
        assert(written + Seq::<u8>::empty() == written);
        Ok(())
    }

    /// Moves `count` values of the type `id`, one after the other.
    fn walk_repeat(
        &self,
        id: u32,
        count: u32,
        input: &mut &[u8],
        output: &mut Vec<u8>,
        depth: u32,
    ) -> (r: Result<(), DecodeError>)
        ensures
            walked_as(
                r,
                final(input)@,
                old(output)@,
                final(output)@,
                walk_repeat(self.metadata().types(), id, count as nat, old(input)@, depth as nat),
            ),
        decreases depth, 1nat,
    {
        let ghost types = self.metadata().types();
        let ghost whole = walk_repeat(types, id, count as nat, old(input)@, depth as nat);
        let ghost written = Seq::<u8>::empty();
        assert(output@ == old(output)@ + written);
        proof {
            lemma_prefixed_nothing(whole);
        }
        let mut i: u32 = 0;
        while i < count
            invariant
                i <= count,
                types == self.metadata().types(),
                whole == walk_repeat(types, id, count as nat, old(input)@, depth as nat),
                output@ == old(output)@ + written,
                whole == prefixed(
                    written,
                    walk_repeat(types, id, (count - i) as nat, input@, depth as nat),
                ),
            decreases count - i,
        {
            let ghost here = input@;
            match self.walk(id, input, output, depth) {
                Ok(()) => {
                    proof {
                        let w = walk_type(types, id, here, depth as nat)->Ok_0;
                        lemma_prefixed_twice(
                            written,
                            w.out,
                            walk_repeat(types, id, (count - i - 1) as nat, w.rest, depth as nat),
                        );
                        assert(old(output)@ + written + w.out == old(output)@ + (written + w.out));
                        written = written + w.out;
                    }
                },
                Err(e) => {
                    return Err(e);
                },
            }
            i += 1;
        }
        assert(written + Seq::<u8>::empty() == written);
        Ok(())
    }

    /// Moves the cursor past the topics that close a record.
    fn skip_topics(&self, input: &mut &[u8]) -> (r: Result<(), DecodeError>)
        ensures
            match r {
                Ok(()) => topics_skipped(old(input)@, self.hash_len()) == Ok::<
                    Seq<u8>,
                    DecodeError,
                >(final(input)@),
                Err(e) => topics_skipped(old(input)@, self.hash_len()) == Err::<
                    Seq<u8>,
                    DecodeError,
                >(e),
            },
    {
        let count = match read_count(input) {
            Ok(count) => count as usize,
            Err(e) => {
                return Err(e);
            },
        };
        let width = self.hash_len;
        let left = input.len();
        if width == 0 {
            assert(count * width == 0);
            assert(input@.skip(0) == input@);
            return Ok(());
        }
        if count > left / width {
            assert(count * width > left) by (nonlinear_arith)
                requires
                    width > 0,
                    count > left / width,
            ;
            return Err(DecodeError::Codec);
        }
        assert(count * width <= left) by (nonlinear_arith)
            requires
                width > 0,
                count <= left / width,
        ;
        *input = vstd::slice::slice_subrange(*input, count * width, left);
        Ok(())
    }

    /// Reads the fields of the event that `event_metadata` describes and
    /// appends their encoding to `output`.
    ///
    /// The cursor moves past exactly the bytes of the fields. After an error
    /// neither the cursor nor the buffer is to be relied on.
    pub fn decode_raw_event(
        &self,
        event_metadata: &EventMetadata,
        input: &mut &[u8],
        output: &mut Vec<u8>,
    ) -> (r: Result<(), DecodeError>)
        ensures
            walked_as(
                r,
                final(input)@,
                old(output)@,
                final(output)@,
                walk_each(
                    self.metadata().types(),
                    event_metadata.field_types(),
                    old(input)@,
                    MAX_DEPTH as nat,
                ),
            ),
    {
        self.walk_each(event_metadata.fields(), input, output, MAX_DEPTH)
    }

    /// Reads one record: an event with the phase in which it was emitted.
    ///
    /// The cursor moves past the record, topics included. After an error the
    /// cursor is not to be relied on.
    pub fn decode_record(&self, input: &mut &[u8]) -> (r: Result<(Phase, RawEvent), DecodeError>)
        ensures
            match r {
                Ok((phase, event)) => record_read(self.metadata(), self.hash_len(), old(input)@)
                    == Ok::<RecordRead, DecodeError>(
                    RecordRead { phase, event: event@, rest: final(input)@ },
                ),
                Err(e) => record_read(self.metadata(), self.hash_len(), old(input)@) == Err::<
                    RecordRead,
                    DecodeError,
                >(e),
            },
    {
        let phase = match Phase::decode(input) {
            Ok(phase) => phase,
            Err(e) => {
                return Err(e);
            },
        };
        let pallet_index = match read_byte(input) {
            Ok(b) => b,
            Err(e) => {
                return Err(e);
            },
        };
        let variant_index = match read_byte(input) {
            Ok(b) => b,
            Err(e) => {
                return Err(e);
            },
        };
        let event_metadata = match self.metadata.event(pallet_index, variant_index) {
            Ok(event_metadata) => event_metadata,
            Err(e) => {
                return Err(DecodeError::Metadata(e));
            },
        };
        let mut data: Vec<u8> = Vec::new();
        match self.decode_raw_event(event_metadata, input, &mut data) {
            Ok(()) => {},
            Err(e) => {
                return Err(e);
            },
        }
        let event = RawEvent {
            pallet: event_metadata.pallet().to_owned(),
            pallet_index,
            variant: event_metadata.event().to_owned(),
            variant_index,
            data,
        };
        // The topics follow the fields; they are no part of the event.
        match self.skip_topics(input) {
            Ok(()) => Ok((phase, event)),
            Err(e) => Err(e),
        }
    }

    /// Reads a stream of events: the count of the records, then the records.
    ///
    /// The events come in the order of their records. Either every record is
    /// read or the call fails: no part of the events is returned. On success
    /// the cursor stands behind the last record; after an error it is not to
    /// be relied on.
    pub fn decode_events(&self, input: &mut &[u8]) -> (r: Result<
        Vec<(Phase, RawEvent)>,
        DecodeError,
    >)
        ensures
            match r {
                Ok(events) => stream_read(self.metadata(), self.hash_len(), old(input)@) == Ok::<
                    StreamRead,
                    DecodeError,
                >(StreamRead { events: events_view(events@), rest: final(input)@ }),
                Err(e) => stream_read(self.metadata(), self.hash_len(), old(input)@) == Err::<
                    StreamRead,
                    DecodeError,
                >(e),
            },
    {
        let count = match read_count(input) {
            Ok(count) => count,
            Err(e) => {
                return Err(e);
            },
        };
        let ghost start = input@;
        let ghost whole = records_read(self.metadata(), self.hash_len(), count as nat, start);
        let mut events: Vec<(Phase, RawEvent)> = Vec::new();
        proof {
            assert(events_view(events@) == Seq::<(Phase, RawEventView)>::empty());
            lemma_preceded_nothing(whole);
        }
        let mut i: u32 = 0;
        while i < count
            invariant
                i <= count,
                whole == stream_read(self.metadata(), self.hash_len(), old(input)@),
                whole == preceded(
                    events_view(events@),
                    records_read(self.metadata(), self.hash_len(), (count - i) as nat, input@),
                ),
            decreases count - i,
        {
            let ghost before = events@;
            match self.decode_record(input) {
                Ok((phase, event)) => {
                    events.push((phase, event));
                    proof {
                        assert(events_view(events@) == events_view(before) + seq![(phase, event@)]);
                        lemma_preceded_twice(
                            events_view(before),
                            seq![(phase, event@)],
                            records_read(
                                self.metadata(),
                                self.hash_len(),
                                (count - i - 1) as nat,
                                input@,
                            ),
                        );
                    }
                },
                Err(e) => {
                    return Err(e);
                },
            }
            i += 1;
        }
        assert(events_view(events@) + Seq::<(Phase, RawEventView)>::empty() == events_view(
            events@,
        ));
        Ok(events)
    }

    /// Reads one value of the type `type_id` from the cursor and appends its
    /// encoding to `output`.
    ///
    /// The cursor moves past exactly the bytes of the value. After an error
    /// neither the cursor nor the buffer is to be relied on.
    pub fn decode_type(&self, type_id: u32, input: &mut &[u8], output: &mut Vec<u8>) -> (r: Result<
        (),
        DecodeError,
    >)
        ensures
            walked_as(
                r,
                final(input)@,
                old(output)@,
                final(output)@,
                walk_type(self.metadata().types(), type_id, old(input)@, MAX_DEPTH as nat),
            ),
    {
        self.walk(type_id, input, output, MAX_DEPTH)
    }
}

} // verus!
