//! What holds of every run of the decoder, proved of the functions that say
//! what the decoder does.

use crate::error::DecodeError;
use crate::events::{
    lemma_preceded_nothing, lemma_preceded_twice, lemma_prefixed_nothing, lemma_prefixed_twice,
    preceded, prefixed, record_read, records_read, walk_compact, walk_compact_primitive, walk_each,
    walk_primitive, walk_repeat, walk_type, EventsDecodingError, RawEventView, RecordRead,
    StreamRead, MAX_DEPTH,
};
use crate::metadata::{EventMetadata, Metadata, TypeDef, TypeDefPrimitive};
use crate::scale::{
    byte_read, compact_u128_walked, compact_u16_walked, compact_u32_walked, compact_u64_walked,
    compact_u8_walked, count_read, str_walked, Walked,
};
use crate::{phase_read, Phase};
use vstd::prelude::*;

verus! {

/// The input that follows the phase and the two indices of a record.
pub open spec fn fields_of_record(input: Seq<u8>) -> Seq<u8>
    recommends
        phase_read(input) is Ok,
{
    phase_read(input)->Ok_0.1.skip(2)
}

/// The event that the two indices of a record name, if the metadata has one.
pub open spec fn event_of_record(metadata: Metadata, input: Seq<u8>) -> Option<EventMetadata>
    recommends
        phase_read(input) is Ok,
        phase_read(input)->Ok_0.1.len() >= 2,
{
    let indices = phase_read(input)->Ok_0.1;
    metadata.event_of(indices[0], indices[1])
}

/// The primitives that the decoder refuses: a `char`, and the integers of
/// 256 bits.
pub open spec fn unsupported(primitive: TypeDefPrimitive) -> bool {
    primitive == TypeDefPrimitive::Char || primitive == TypeDefPrimitive::U256 || primitive
        == TypeDefPrimitive::I256
}

/// The error that a refused primitive gives.
pub open spec fn unsupported_primitive(primitive: TypeDefPrimitive) -> DecodeError {
    DecodeError::EventsDecoding(EventsDecodingError::UnsupportedPrimitive(primitive))
}

/// The error that a sequence of bits gives.
pub open spec fn bit_sequence_unimplemented() -> DecodeError {
    DecodeError::EventsDecoding(EventsDecodingError::BitSequenceUnimplemented)
}

/// A value of a refused primitive type cannot be decoded, whatever the input
/// holds: the decoder fails with `UnsupportedPrimitive`.
pub proof fn lemma_unsupported_primitive_fails(
    types: Seq<TypeDef>,
    id: u32,
    primitive: TypeDefPrimitive,
    input: Seq<u8>,
    depth: nat,
)
    requires
        (id as int) < types.len(),
        types[id as int] == TypeDef::Primitive(primitive),
        unsupported(primitive),
        depth > 0,
    ensures
        walk_type(types, id, input, depth) == Err::<Walked, DecodeError>(
            unsupported_primitive(primitive),
        ),
{
}

/// A sequence of bits cannot be decoded, whatever the input holds: the
/// decoder fails with `BitSequenceUnimplemented`.
pub proof fn lemma_bit_sequence_fails(types: Seq<TypeDef>, id: u32, input: Seq<u8>, depth: nat)
    requires
        (id as int) < types.len(),
        types[id as int] == TypeDef::BitSequence,
        depth > 0,
    ensures
        walk_type(types, id, input, depth) == Err::<Walked, DecodeError>(
            bit_sequence_unimplemented(),
        ),
{
}

/// Walking a list of types is walking its first `k` types and then the
/// others, from where the first `k` ended.
pub proof fn lemma_walk_each_split(
    types: Seq<TypeDef>,
    ids: Seq<u32>,
    k: int,
    input: Seq<u8>,
    depth: nat,
)
    requires
        0 <= k <= ids.len(),
    ensures
        walk_each(types, ids, input, depth) == match walk_each(types, ids.take(k), input, depth) {
            Ok(w) => prefixed(w.out, walk_each(types, ids.skip(k), w.rest, depth)),
            Err(e) => Err(e),
        },
    decreases k,
{
    if k == 0 {
        assert(ids.take(0) == Seq::<u32>::empty());
        assert(ids.skip(0) == ids);
        lemma_prefixed_nothing(walk_each(types, ids, input, depth));
    } else {
        assert(ids.take(k)[0] == ids[0]);
        assert(ids.take(k).skip(1) == ids.skip(1).take(k - 1));
        assert(ids.skip(1).skip(k - 1) == ids.skip(k));
        match walk_type(types, ids[0], input, depth) {
            Ok(first) => {
                lemma_walk_each_split(types, ids.skip(1), k - 1, first.rest, depth);
                match walk_each(types, ids.skip(1).take(k - 1), first.rest, depth) {
                    Ok(w) => {
                        lemma_prefixed_twice(
                            first.out,
                            w.out,
                            walk_each(types, ids.skip(k), w.rest, depth),
                        );
                    },
                    Err(_) => {},
                }
            },
            Err(_) => {},
        }
    }
}

/// An event with a field of a refused primitive type cannot be decoded: where
/// the fields before it are read, the decoder fails at that field with
/// `UnsupportedPrimitive`, whatever bytes stand there.
pub proof fn lemma_field_of_unsupported_primitive_fails(
    types: Seq<TypeDef>,
    fields: Seq<u32>,
    k: int,
    primitive: TypeDefPrimitive,
    input: Seq<u8>,
    depth: nat,
)
    requires
        0 <= k < fields.len(),
        (fields[k] as int) < types.len(),
        types[fields[k] as int] == TypeDef::Primitive(primitive),
        unsupported(primitive),
        depth > 0,
        walk_each(types, fields.take(k), input, depth) is Ok,
    ensures
        walk_each(types, fields, input, depth) == Err::<Walked, DecodeError>(
            unsupported_primitive(primitive),
        ),
{
    lemma_walk_each_split(types, fields, k, input, depth);
    let before = walk_each(types, fields.take(k), input, depth)->Ok_0;
    assert(fields.skip(k)[0] == fields[k]);
    lemma_unsupported_primitive_fails(types, fields[k], primitive, before.rest, depth);
}

/// An event with a field that is a sequence of bits cannot be decoded: where
/// the fields before it are read, the decoder fails at that field with
/// `BitSequenceUnimplemented`, whatever bytes stand there.
pub proof fn lemma_field_of_bit_sequence_fails(
    types: Seq<TypeDef>,
    fields: Seq<u32>,
    k: int,
    input: Seq<u8>,
    depth: nat,
)
    requires
        0 <= k < fields.len(),
        (fields[k] as int) < types.len(),
        types[fields[k] as int] == TypeDef::BitSequence,
        depth > 0,
        walk_each(types, fields.take(k), input, depth) is Ok,
    ensures
        walk_each(types, fields, input, depth) == Err::<Walked, DecodeError>(
            bit_sequence_unimplemented(),
        ),
{
    lemma_walk_each_split(types, fields, k, input, depth);
    let before = walk_each(types, fields.take(k), input, depth)->Ok_0;
    assert(fields.skip(k)[0] == fields[k]);
    lemma_bit_sequence_fails(types, fields[k], before.rest, depth);
}

/// A record whose fields cannot be read cannot be read: where the phase and
/// the two indices are read and name an event of the metadata, the failure of
/// the event's fields is the failure of the record.
pub proof fn lemma_record_fails_with_its_fields(metadata: Metadata, hash_len: nat, input: Seq<u8>)
    requires
        phase_read(input) is Ok,
        phase_read(input)->Ok_0.1.len() >= 2,
        event_of_record(metadata, input) is Some,
        walk_each(
            metadata.types(),
            event_of_record(metadata, input)->Some_0.field_types(),
            fields_of_record(input),
            MAX_DEPTH as nat,
        ) is Err,
    ensures
        record_read(metadata, hash_len, input) == Err::<RecordRead, DecodeError>(
            walk_each(
                metadata.types(),
                event_of_record(metadata, input)->Some_0.field_types(),
                fields_of_record(input),
                MAX_DEPTH as nat,
            )->Err_0,
        ),
{
    let after_phase = phase_read(input)->Ok_0.1;
    assert(after_phase.skip(1).skip(1) == after_phase.skip(2));
}

/// Reading `a + b` records is reading `a` records and then `b` records, from
/// where the first `a` ended.
pub proof fn lemma_records_split(
    metadata: Metadata,
    hash_len: nat,
    a: nat,
    b: nat,
    input: Seq<u8>,
)
    ensures
        records_read(metadata, hash_len, a + b, input) == match records_read(
            metadata,
            hash_len,
            a,
            input,
        ) {
            Ok(s) => preceded(s.events, records_read(metadata, hash_len, b, s.rest)),
            Err(e) => Err(e),
        },
    decreases a,
{
    if a == 0 {
        lemma_preceded_nothing(records_read(metadata, hash_len, b, input));
    } else {
        match record_read(metadata, hash_len, input) {
            Ok(record) => {
                lemma_records_split(metadata, hash_len, (a - 1) as nat, b, record.rest);
                assert((a + b - 1) as nat == (a - 1) as nat + b);
                match records_read(metadata, hash_len, (a - 1) as nat, record.rest) {
                    Ok(s) => {
                        lemma_preceded_twice(
                            seq![(record.phase, record.event)],
                            s.events,
                            records_read(metadata, hash_len, b, s.rest),
                        );
                    },
                    Err(_) => {},
                }
            },
            Err(_) => {},
        }
    }
}

/// A run of `count` records that is read gives `count` events.
pub proof fn lemma_records_count(metadata: Metadata, hash_len: nat, count: nat, input: Seq<u8>)
    ensures
        records_read(metadata, hash_len, count, input) matches Ok(s) ==> s.events.len() == count,
    decreases count,
{
    if count > 0 {
        if let Ok(record) = record_read(metadata, hash_len, input) {
            lemma_records_count(metadata, hash_len, (count - 1) as nat, record.rest);
        }
    }
}

/// The events come out in the order of their records: where `count` records
/// are read, the event at position `i` is the one of the record that stands
/// where the first `i` records ended, with the phase that stands there.
pub proof fn lemma_order_is_kept(
    metadata: Metadata,
    hash_len: nat,
    count: nat,
    input: Seq<u8>,
    i: nat,
)
    requires
        i < count,
        records_read(metadata, hash_len, count, input) is Ok,
    ensures
        records_read(metadata, hash_len, count, input)->Ok_0.events.len() == count,
        records_read(metadata, hash_len, i, input) matches Ok(before) && record_read(
            metadata,
            hash_len,
            before.rest,
        ) matches Ok(record) && records_read(metadata, hash_len, count, input)->Ok_0.events[i as int]
            == (record.phase, record.event),
{
    lemma_records_count(metadata, hash_len, count, input);
    lemma_records_count(metadata, hash_len, i, input);
    lemma_records_split(metadata, hash_len, i, (count - i) as nat, input);
    assert(i + (count - i) as nat == count);
    let before = records_read(metadata, hash_len, i, input)->Ok_0;
    let record = record_read(metadata, hash_len, before.rest)->Ok_0;
    lemma_records_count(metadata, hash_len, (count - i - 1) as nat, record.rest);
}

/// One record that cannot be read fails the whole run, with the error of
/// that record: where the first `k` of `count` records are read and the next
/// one is not, no event is returned.
pub proof fn lemma_failure_is_whole(
    metadata: Metadata,
    hash_len: nat,
    count: nat,
    input: Seq<u8>,
    k: nat,
)
    requires
        k < count,
        records_read(metadata, hash_len, k, input) is Ok,
        record_read(metadata, hash_len, records_read(metadata, hash_len, k, input)->Ok_0.rest)
            is Err,
    ensures
        records_read(metadata, hash_len, count, input) == Err::<StreamRead, DecodeError>(
            record_read(
                metadata,
                hash_len,
                records_read(metadata, hash_len, k, input)->Ok_0.rest,
            )->Err_0,
        ),
{
    lemma_records_split(metadata, hash_len, k, (count - k) as nat, input);
    assert(k + (count - k) as nat == count);
}

/// A run of records fails only where one of its records cannot be read.
pub proof fn lemma_failure_has_a_record(
    metadata: Metadata,
    hash_len: nat,
    count: nat,
    input: Seq<u8>,
) -> (k: nat)
    requires
        records_read(metadata, hash_len, count, input) is Err,
    ensures
        k < count,
        records_read(metadata, hash_len, k, input) matches Ok(before) && record_read(
            metadata,
            hash_len,
            before.rest,
        ) == Err::<RecordRead, DecodeError>(
            records_read(metadata, hash_len, count, input)->Err_0,
        ),
    decreases count,
{
    match record_read(metadata, hash_len, input) {
        Ok(record) => {
            let j = lemma_failure_has_a_record(metadata, hash_len, (count - 1) as nat, record.rest);
            lemma_records_split(metadata, hash_len, 1, j, input);
            assert(records_read(metadata, hash_len, 0, record.rest) == Ok::<
                StreamRead,
                DecodeError,
            >(StreamRead { events: Seq::empty(), rest: record.rest }));
            assert(seq![(record.phase, record.event)] + Seq::<(Phase, RawEventView)>::empty()
                == seq![(record.phase, record.event)]);
            j + 1
        },
        Err(_) => 0,
    }
}

/// What was written and what was left are, one after the other, the input.
pub open spec fn kept(input: Seq<u8>, r: Result<Walked, DecodeError>) -> bool {
    r matches Ok(w) ==> input == w.out + w.rest
}

/// The codec writes, for a compact integer or a string that it decoded, the
/// bytes that it had read. This is a statement about the codec; nothing in
/// this library takes it for granted.
pub open spec fn codec_keeps_bytes() -> bool {
    &&& forall|input: Seq<u8>| kept(input, #[trigger] compact_u8_walked(input))
    &&& forall|input: Seq<u8>| kept(input, #[trigger] compact_u16_walked(input))
    &&& forall|input: Seq<u8>| kept(input, #[trigger] compact_u32_walked(input))
    &&& forall|input: Seq<u8>| kept(input, #[trigger] compact_u64_walked(input))
    &&& forall|input: Seq<u8>| kept(input, #[trigger] compact_u128_walked(input))
    &&& forall|input: Seq<u8>| kept(input, #[trigger] str_walked(input))
}

/// With a codec that keeps the bytes, the decoder hands the bytes of every
/// value through as they are: what it wrote for the value and what it left
/// of the input are, one after the other, the input.
pub proof fn lemma_value_is_kept(types: Seq<TypeDef>, id: u32, input: Seq<u8>, depth: nat)
    ensures
        codec_keeps_bytes() ==> kept(input, walk_type(types, id, input, depth)),
    decreases depth, 0nat,
{
    if codec_keeps_bytes() && depth > 0 && (id as int) < types.len() {
        let below = (depth - 1) as nat;
        match types[id as int] {
            TypeDef::Composite { fields } => {
                lemma_values_are_kept(types, fields@, input, below);
            },
            TypeDef::Variant { variants } => {
                if let Ok((index, rest)) = byte_read(input) {
                    if (index as int) < variants@.len() {
                        lemma_values_are_kept(types, variants@[index as int]@, rest, below);
                        if let Ok(w) = walk_each(types, variants@[index as int]@, rest, below) {
                            assert(input == seq![index] + rest);
                            assert(input == (seq![index] + w.out) + w.rest);
                        }
                    }
                }
            },
            TypeDef::Sequence { element } => {
                if let Ok((count, rest)) = count_read(input) {
                    lemma_run_is_kept(types, element, count as nat, rest, below);
                    let head = compact_u32_walked(input)->Ok_0;
                    assert(kept(input, compact_u32_walked(input)));
                    if let Ok(w) = walk_repeat(types, element, count as nat, rest, below) {
                        assert(input == (head.out + w.out) + w.rest);
                    }
                }
            },
            TypeDef::Array { element, len } => {
                lemma_run_is_kept(types, element, len as nat, input, below);
            },
            TypeDef::Tuple { elements } => {
                lemma_values_are_kept(types, elements@, input, below);
            },
            TypeDef::Primitive(primitive) => {
                lemma_primitive_is_kept(primitive, input);
            },
            TypeDef::Compact { inner } => {
                lemma_compact_is_kept(types, inner, input);
            },
            TypeDef::BitSequence => {},
        }
    }
}

/// [`lemma_value_is_kept`], of the values of a list of types.
pub proof fn lemma_values_are_kept(types: Seq<TypeDef>, ids: Seq<u32>, input: Seq<u8>, depth: nat)
    ensures
        codec_keeps_bytes() ==> kept(input, walk_each(types, ids, input, depth)),
    decreases depth, ids.len() + 1,
{
    if ids.len() == 0 {
        assert(input == Seq::<u8>::empty() + input);
    } else {
        lemma_value_is_kept(types, ids[0], input, depth);
        if let Ok(first) = walk_type(types, ids[0], input, depth) {
            lemma_values_are_kept(types, ids.skip(1), first.rest, depth);
            if let Ok(w) = walk_each(types, ids.skip(1), first.rest, depth) {
                if codec_keeps_bytes() {
                    assert(input == (first.out + w.out) + w.rest);
                }
            }
        }
    }
}

/// [`lemma_value_is_kept`], of a run of values of one type.
pub proof fn lemma_run_is_kept(
    types: Seq<TypeDef>,
    id: u32,
    count: nat,
    input: Seq<u8>,
    depth: nat,
)
    ensures
        codec_keeps_bytes() ==> kept(input, walk_repeat(types, id, count, input, depth)),
    decreases depth, count + 1,
{
    if count == 0 {
        assert(input == Seq::<u8>::empty() + input);
    } else {
        lemma_value_is_kept(types, id, input, depth);
        if let Ok(first) = walk_type(types, id, input, depth) {
            lemma_run_is_kept(types, id, (count - 1) as nat, first.rest, depth);
            if let Ok(w) = walk_repeat(types, id, (count - 1) as nat, first.rest, depth) {
                if codec_keeps_bytes() {
                    assert(input == (first.out + w.out) + w.rest);
                }
            }
        }
    }
}

/// [`lemma_value_is_kept`], of a primitive.
pub proof fn lemma_primitive_is_kept(primitive: TypeDefPrimitive, input: Seq<u8>)
    ensures
        codec_keeps_bytes() ==> kept(input, walk_primitive(primitive, input)),
{
    if let Ok(w) = walk_primitive(primitive, input) {
        if codec_keeps_bytes() {
            if primitive == TypeDefPrimitive::Str {
                assert(kept(input, str_walked(input)));
            } else {
                assert(input == w.out + w.rest);
            }
        }
    }
}

/// [`lemma_value_is_kept`], of a compact integer.
pub proof fn lemma_compact_is_kept(types: Seq<TypeDef>, inner: u32, input: Seq<u8>)
    ensures
        codec_keeps_bytes() ==> kept(input, walk_compact(types, inner, input)),
{
    if codec_keeps_bytes() {
        assert(forall|primitive: TypeDefPrimitive|
            kept(input, #[trigger] walk_compact_primitive(primitive, input)));
    }
}


/// With a codec that keeps the bytes, an event holds the bytes of its fields
/// as they stood in the input, behind the phase and the two indices: an
/// event type that decodes what it encodes finds in the event the value that
/// was encoded.
pub proof fn lemma_event_holds_its_fields(metadata: Metadata, hash_len: nat, input: Seq<u8>)
    ensures
        codec_keeps_bytes() ==> (record_read(metadata, hash_len, input) matches Ok(record)
            ==> record.event.data.len() <= fields_of_record(input).len() && record.event.data
            == fields_of_record(input).take(record.event.data.len() as int)),
{
    if let Ok(record) = record_read(metadata, hash_len, input) {
        let after_phase = phase_read(input)->Ok_0.1;
        let pallet_index = byte_read(after_phase)->Ok_0.0;
        let after_pallet = byte_read(after_phase)->Ok_0.1;
        let variant_index = byte_read(after_pallet)->Ok_0.0;
        let fields = byte_read(after_pallet)->Ok_0.1;
        assert(fields == after_phase.skip(2));
        let event = metadata.event_of(pallet_index, variant_index)->Some_0;
        lemma_values_are_kept(
            metadata.types(),
            event.field_types(),
            fields,
            MAX_DEPTH as nat,
        );
        if codec_keeps_bytes() {
            let w = walk_each(metadata.types(), event.field_types(), fields, MAX_DEPTH as nat)->Ok_0;
            assert(fields == w.out + w.rest);
            assert(w.out == fields.take(w.out.len() as int));
        }
    }
}

} // verus!
