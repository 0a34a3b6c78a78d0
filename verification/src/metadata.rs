//! The runtime description of a chain's types and events.
//!
//! A [`Metadata`] value is a snapshot: it is filled once, from whatever the
//! chain reported, and only read afterwards.

use std::collections::HashMap;
use vstd::prelude::*;
use vstd::std_specs::hash::*;

verus! {

broadcast use vstd::std_specs::hash::group_hash_axioms;

/// The primitive kinds that a type definition can name.
#[derive(Clone, Copy, Debug, PartialEq, Eq, Structural)]
pub enum TypeDefPrimitive {
    /// `bool`
    Bool,
    /// `char`
    Char,
    /// A string, stored as its UTF-8 bytes behind a length prefix.
    Str,
    /// `u8`
    U8,
    /// `u16`
    U16,
    /// `u32`
    U32,
    /// `u64`
    U64,
    /// `u128`
    U128,
    /// An unsigned integer of 256 bits.
    U256,
    /// `i8`
    I8,
    /// `i16`
    I16,
    /// `i32`
    I32,
    /// `i64`
    I64,
    /// `i128`
    I128,
    /// A signed integer of 256 bits.
    I256,
}

/// The shape of one type. Every `u32` in it is the identifier of another type
/// of the same registry.
#[derive(Clone, Debug, PartialEq, Eq)]
pub enum TypeDef {
    /// A struct: its fields in declared order.
    Composite { fields: Vec<u32> },
    /// A tagged union: for each variant, in declared order, its fields. The
    /// discriminant byte on the wire is the position in this list.
    Variant { variants: Vec<Vec<u32>> },
    /// A run of elements whose count is part of the data.
    Sequence { element: u32 },
    /// A run of `len` elements.
    Array { element: u32, len: u32 },
    /// A tuple: its elements in order.
    Tuple { elements: Vec<u32> },
    /// A primitive.
    Primitive(TypeDefPrimitive),
    /// An integer in the variable-length compact encoding.
    Compact { inner: u32 },
    /// A sequence of bits.
    BitSequence,
}

/// What the metadata says of one event: the names, and the types of its
/// fields in declared order.
#[derive(Clone, Debug, PartialEq, Eq)]
pub struct EventMetadata {
    pallet: String,
    event: String,
    fields: Vec<u32>,
}

impl EventMetadata {
    /// The name of the pallet that owns the event.
    pub closed spec fn pallet_name(&self) -> Seq<char> {
        self.pallet@
    }

    /// The name of the event.
    pub closed spec fn event_name(&self) -> Seq<char> {
        self.event@
    }

    /// The type identifiers of the event's fields, in declared order.
    pub closed spec fn field_types(&self) -> Seq<u32> {
        self.fields@
    }

    /// An event of pallet `pallet`, called `event`, with the given fields.
    pub fn new(pallet: String, event: String, fields: Vec<u32>) -> (r: Self)
        ensures
            r.pallet_name() == pallet@,
            r.event_name() == event@,
            r.field_types() == fields@,
    {
        EventMetadata { pallet, event, fields }
    }

    /// The name of the pallet that owns the event.
    pub fn pallet(&self) -> (r: &str)
        ensures
            r@ == self.pallet_name(),
    {
        self.pallet.as_str()
    }

    /// The name of the event.
    pub fn event(&self) -> (r: &str)
        ensures
            r@ == self.event_name(),
    {
        self.event.as_str()
    }

    /// The type identifiers of the event's fields, in declared order.
    pub fn fields(&self) -> (r: &[u32])
        ensures
            r@ == self.field_types(),
    {
        self.fields.as_slice()
    }
}

/// A lookup in the metadata that found nothing.
#[derive(Clone, Copy, Debug, PartialEq, Eq, Structural)]
pub enum MetadataError {
    /// No type has this identifier.
    TypeNotFound(u32),
    /// No event is registered for this pallet index and variant index.
    EventNotFound(u8, u8),
}

/// The key under which the event with the given pallet and variant index is
/// stored.
pub open spec fn event_key(pallet_index: u8, variant_index: u8) -> u16 {
    (pallet_index as int * 256 + variant_index as int) as u16
}

/// The type registry and the event registry of one chain.
#[derive(Clone, Debug)]
pub struct Metadata {
    types: Vec<TypeDef>,
    events: HashMap<u16, EventMetadata>,
}

impl Metadata {
    /// The type definitions: the type with identifier `id` stands at index
    /// `id`.
    pub closed spec fn types(&self) -> Seq<TypeDef> {
        self.types@
    }

    /// The registered events, by [`event_key`].
    pub closed spec fn events(&self) -> Map<u16, EventMetadata> {
        self.events@
    }

    /// The definition of the type `id`, if the registry has one.
    pub open spec fn type_of(&self, id: u32) -> Option<TypeDef> {
        if (id as int) < self.types().len() {
            Some(self.types()[id as int])
        } else {
            None
        }
    }

    /// The event registered for the two indices, if there is one.
    pub open spec fn event_of(&self, pallet_index: u8, variant_index: u8) -> Option<
        EventMetadata,
    > {
        let key = event_key(pallet_index, variant_index);
        if self.events().contains_key(key) {
            Some(self.events()[key])
        } else {
            None
        }
    }

    /// Metadata with the given types, identified by their position, and no
    /// event.
    pub fn new(types: Vec<TypeDef>) -> (r: Self)
        ensures
            r.types() == types@,
            r.events() == Map::<u16, EventMetadata>::empty(),
    {
        Metadata { types, events: HashMap::new() }
    }

    /// Registers `event` for the two indices and returns what was registered
    /// for them before.
    pub fn insert_event(&mut self, pallet_index: u8, variant_index: u8, event: EventMetadata) -> (r:
        Option<EventMetadata>)
        ensures
            final(self).types() == old(self).types(),
            final(self).events() == old(self).events().insert(
                event_key(pallet_index, variant_index),
                event,
            ),
            r == old(self).event_of(pallet_index, variant_index),
    {
        let key: u16 = pallet_index as u16 * 256 + variant_index as u16;
        self.events.insert(key, event)
    }

    /// The definition of the type `id`.
    pub fn resolve_type(&self, id: u32) -> (r: Option<&TypeDef>)
        ensures
            r == match self.type_of(id) {
                Some(def) => Some(&def),
                None => None,
            },
    {
        if (id as usize) < self.types.len() {
            Some(&self.types[id as usize])
        } else {
            None
        }
    }

    /// The event registered for the two indices.
    pub fn event(&self, pallet_index: u8, variant_index: u8) -> (r: Result<
        &EventMetadata,
        MetadataError,
    >)
        ensures
            r == match self.event_of(pallet_index, variant_index) {
                Some(event) => Ok::<&EventMetadata, MetadataError>(&event),
                None => Err(MetadataError::EventNotFound(pallet_index, variant_index)),
            },
    {
        let key: u16 = pallet_index as u16 * 256 + variant_index as u16;
        match self.events.get(&key) {
            Some(event) => Ok(event),
            None => Err(MetadataError::EventNotFound(pallet_index, variant_index)),
        }
    }
}

} // verus!
