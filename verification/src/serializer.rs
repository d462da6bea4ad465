//! The adapter that fills one output slot with a tree value, and the seven
//! compound builders that accumulate child values and finalize them into the
//! parent slot.
//!
//! The adapter implements the primitive side of a visitor-style conversion
//! protocol: every primitive callback writes one leaf into the slot. Every
//! compound callback hands back a builder; the builder accumulates children
//! (each converted through a fresh adapter by the caller) and, on `end`,
//! writes the assembled compound value into the parent adapter's slot.

use vstd::prelude::*;

use crate::robj::{bare_entries, list_from_pairs, list_from_values, named_entries, tags_list,
    tags_value, Error, Robj};
use vstd::string::StringExecFns;

verus! {

/// The adapter: one output slot, empty until a callback writes it.
pub struct Serializer {
    /// The output slot; holds the finished tree value after a conversion.
    pub robj: Option<Robj>,
}

/// Accumulates the elements of a sequence; finalizes to a bare list.
pub struct SerializeSeq {
    /// The already-converted element values, in order.
    pub values: Vec<Robj>,
}

/// Accumulates the elements of a tuple; finalizes to a bare list.
pub struct SerializeTuple {
    /// The already-converted element values, in order.
    pub values: Vec<Robj>,
}

/// Accumulates the fields of a tuple struct; finalizes to a bare list.
pub struct SerializeTupleStruct {
    /// The already-converted field values, in order.
    pub values: Vec<Robj>,
}

/// Accumulates the fields of a tuple enum variant; finalizes to a bare list
/// wrapped in a single-entry list named after the variant.
pub struct SerializeTupleVariant {
    /// The already-converted field values, in order.
    pub values: Vec<Robj>,
    /// The variant name used as the tag.
    pub variant: String,
}

/// Accumulates the (key, value) pairs of a map; finalizes to a named list.
/// Keys must convert to string leaves.
pub struct SerializeMap {
    /// The accumulated pairs, in the order they were supplied.
    pub values: Vec<(String, Robj)>,
    /// The pending key: written by each key callback, consumed (and reset to
    /// the empty string) by the paired value callback.
    pub key: String,
}

/// Accumulates the named fields of a struct; finalizes to a named list.
pub struct SerializeStruct {
    /// The accumulated (field name, value) pairs, in order.
    pub values: Vec<(String, Robj)>,
}

/// Accumulates the named fields of a struct enum variant; finalizes to a
/// named list wrapped in a single-entry list named after the variant.
pub struct SerializeStructVariant {
    /// The accumulated (field name, value) pairs, in order.
    pub values: Vec<(String, Robj)>,
    /// The variant name used as the tag.
    pub variant: String,
}

/// Conversion is referentially transparent: the slot contents after a
/// conversion are a function of the converted value alone, so converting the
/// same value again reproduces the same output.
pub proof fn lemma_conversion_repeatable(first: Option<Robj>, second: Option<Robj>, out: Robj)
    requires
        first == Some(out),
        second == Some(out),
    ensures
        first == second,
{
}

/// An absent optional and unit both fill the slot with the null leaf: the two
/// are observably indistinguishable in the output.
pub proof fn lemma_none_unit_indistinguishable(none_slot: Option<Robj>, unit_slot: Option<Robj>)
    requires
        none_slot == Some(Robj::Null),
        unit_slot == Some(Robj::Null),
    ensures
        none_slot == unit_slot,
{
}

/// Relies on char::to_string: the resulting string holds exactly the one
/// character it was made from.
#[verifier::external_body]
fn char_to_string(c: char) -> (r: String)
    ensures
        r@ == seq![c],
{
    c.to_string()
}

impl Serializer {
    /// A fresh adapter with an empty slot.
    pub fn new() -> (s: Serializer)
        ensures
            s.robj is None,
    {
        Serializer { robj: None }
    }

    /// Hand out whatever the slot holds, consuming the adapter.
    pub fn take(self) -> (r: Option<Robj>)
        ensures
            r == self.robj,
    {
        self.robj
    }

    /// A boolean becomes a boolean scalar leaf.
    pub fn serialize_bool(&mut self, v: bool)
        ensures
            final(self).robj == Some(Robj::Logical(v)),
    {
        self.robj = Some(Robj::Logical(v));
    }

    /// An 8-bit signed integer becomes the matching scalar leaf.
    pub fn serialize_i8(&mut self, v: i8)
        ensures
            final(self).robj == Some(Robj::Int8(v)),
    {
        self.robj = Some(Robj::Int8(v));
    }

    /// A 16-bit signed integer becomes the matching scalar leaf.
    pub fn serialize_i16(&mut self, v: i16)
        ensures
            final(self).robj == Some(Robj::Int16(v)),
    {
        self.robj = Some(Robj::Int16(v));
    }

    /// A 32-bit signed integer becomes the matching scalar leaf.
    pub fn serialize_i32(&mut self, v: i32)
        ensures
            final(self).robj == Some(Robj::Int32(v)),
    {
        self.robj = Some(Robj::Int32(v));
    }

    /// A 64-bit signed integer becomes the matching scalar leaf.
    pub fn serialize_i64(&mut self, v: i64)
        ensures
            final(self).robj == Some(Robj::Int64(v)),
    {
        self.robj = Some(Robj::Int64(v));
    }

    /// An 8-bit unsigned integer becomes the matching scalar leaf.
    pub fn serialize_u8(&mut self, v: u8)
        ensures
            final(self).robj == Some(Robj::UInt8(v)),
    {
        self.robj = Some(Robj::UInt8(v));
    }

    /// A 16-bit unsigned integer becomes the matching scalar leaf.
    pub fn serialize_u16(&mut self, v: u16)
        ensures
            final(self).robj == Some(Robj::UInt16(v)),
    {
        self.robj = Some(Robj::UInt16(v));
    }

    /// A 32-bit unsigned integer becomes the matching scalar leaf.
    pub fn serialize_u32(&mut self, v: u32)
        ensures
            final(self).robj == Some(Robj::UInt32(v)),
    {
        self.robj = Some(Robj::UInt32(v));
    }

    /// A 64-bit unsigned integer becomes the matching scalar leaf.
    pub fn serialize_u64(&mut self, v: u64)
        ensures
            final(self).robj == Some(Robj::UInt64(v)),
    {
        self.robj = Some(Robj::UInt64(v));
    }

    /// A 32-bit real, given as its IEEE-754 bit pattern, becomes the matching
    /// scalar leaf with the pattern kept bit for bit.
    pub fn serialize_f32_bits(&mut self, bits: u32)
        ensures
            final(self).robj == Some(Robj::Real32(bits)),
    {
        self.robj = Some(Robj::Real32(bits));
    }

    /// A 64-bit real, given as its IEEE-754 bit pattern, becomes the matching
    /// scalar leaf with the pattern kept bit for bit.
    pub fn serialize_f64_bits(&mut self, bits: u64)
        ensures
            final(self).robj == Some(Robj::Real64(bits)),
    {
        self.robj = Some(Robj::Real64(bits));
    }

    /// A single character becomes a one-character string leaf: the tree value
    /// model has no dedicated character scalar.
    pub fn serialize_char(&mut self, v: char)
        ensures
            final(self).robj matches Some(r) && r matches Robj::Str(s) && s@ == seq![v],
    {
        self.robj = Some(Robj::Str(char_to_string(v)));
    }

    /// A string slice becomes a string leaf with the same characters.
    pub fn serialize_str(&mut self, v: &str)
        ensures
            final(self).robj matches Some(r) && r matches Robj::Str(s) && s@ == v@,
    {
        self.robj = Some(Robj::Str(String::from_str(v)));
    }

    /// A byte slice becomes a raw byte vector with the same bytes.
    pub fn serialize_bytes(&mut self, v: &[u8])
        ensures
            final(self).robj matches Some(r) && r matches Robj::Bytes(b) && b@ == v@,
    {
        self.robj = Some(Robj::Bytes(vstd::slice::slice_to_vec(v)));
    }

    /// An absent optional becomes the null leaf.
    pub fn serialize_none(&mut self)
        ensures
            final(self).robj == Some(Robj::Null),
    {
        self.robj = Some(Robj::Null);
    }

    /// Unit becomes the null leaf: indistinguishable from an absent optional.
    pub fn serialize_unit(&mut self)
        ensures
            final(self).robj == Some(Robj::Null),
    {
        self.robj = Some(Robj::Null);
    }

    /// A unit struct becomes the null leaf; the type name is discarded.
    pub fn serialize_unit_struct(&mut self, _name: &str)
        ensures
            final(self).robj == Some(Robj::Null),
    {
        self.serialize_unit();
    }

    /// A unit enum variant becomes a single-entry list: the variant name
    /// tagging the null value.
    pub fn serialize_unit_variant(&mut self, _name: &str, _variant_index: u32, variant: &str)
        ensures
            final(self).robj matches Some(out) && tags_value(out, variant@, Robj::Null),
    {
        let mut pairs: Vec<(String, Robj)> = Vec::new();
        pairs.push((String::from_str(variant), Robj::Null));
        self.robj = Some(list_from_pairs(pairs));
    }

    /// A newtype enum variant becomes a single-entry list: the variant name
    /// tagging the already-converted payload.
    pub fn serialize_newtype_variant(
        &mut self,
        _name: &str,
        _variant_index: u32,
        variant: &str,
        value: Robj,
    )
        ensures
            final(self).robj matches Some(out) && tags_value(out, variant@, value),
    {
        let mut pairs: Vec<(String, Robj)> = Vec::new();
        pairs.push((String::from_str(variant), value));
        self.robj = Some(list_from_pairs(pairs));
    }

    /// Start of a sequence: an empty element accumulator, presized when the
    /// element count is known up front.
    pub fn serialize_seq(&self, len: Option<usize>) -> (b: SerializeSeq)
        ensures
            b.values@ == Seq::<Robj>::empty(),
    {
        let values = match len {
            Some(n) => Vec::with_capacity(n),
            None => Vec::new(),
        };
        SerializeSeq { values }
    }

    /// Start of a tuple: an empty element accumulator.
    pub fn serialize_tuple(&self, len: usize) -> (b: SerializeTuple)
        ensures
            b.values@ == Seq::<Robj>::empty(),
    {
        SerializeTuple { values: Vec::with_capacity(len) }
    }

    /// Start of a tuple struct: an empty field accumulator; the type name is
    /// discarded.
    pub fn serialize_tuple_struct(&self, _name: &str, len: usize) -> (b: SerializeTupleStruct)
        ensures
            b.values@ == Seq::<Robj>::empty(),
    {
        SerializeTupleStruct { values: Vec::with_capacity(len) }
    }

    /// Start of a tuple enum variant: an empty field accumulator carrying the
    /// variant name for the final tag.
    pub fn serialize_tuple_variant(
        &self,
        _name: &str,
        _variant_index: u32,
        variant: &str,
        len: usize,
    ) -> (b: SerializeTupleVariant)
        ensures
            b.values@ == Seq::<Robj>::empty(),
            b.variant@ == variant@,
    {
        SerializeTupleVariant { values: Vec::with_capacity(len), variant: String::from_str(variant) }
    }

    /// Start of a map: an empty pair accumulator with an empty pending key.
    pub fn serialize_map(&self, _len: Option<usize>) -> (b: SerializeMap)
        ensures
            b.values@ == Seq::<(String, Robj)>::empty(),
            b.key@ == Seq::<char>::empty(),
    {
        SerializeMap { values: Vec::new(), key: String::new() }
    }

    /// Start of a struct: an empty field accumulator; the type name is
    /// discarded.
    pub fn serialize_struct(&self, _name: &str, len: usize) -> (b: SerializeStruct)
        ensures
            b.values@ == Seq::<(String, Robj)>::empty(),
    {
        SerializeStruct { values: Vec::with_capacity(len) }
    }

    /// Start of a struct enum variant: an empty field accumulator carrying
    /// the variant name for the final tag.
    pub fn serialize_struct_variant(
        &self,
        _name: &str,
        _variant_index: u32,
        variant: &str,
        _len: usize,
    ) -> (b: SerializeStructVariant)
        ensures
            b.values@ == Seq::<(String, Robj)>::empty(),
            b.variant@ == variant@,
    {
        SerializeStructVariant { values: Vec::new(), variant: String::from_str(variant) }
    }
}

impl SerializeSeq {
    /// Append one already-converted element.
    pub fn serialize_element(&mut self, value: Robj)
        ensures
            final(self).values@ == old(self).values@.push(value),
    {
        self.values.push(value);
    }

    /// Close the sequence: write a bare list of the accumulated elements into
    /// the parent slot.
    pub fn end(self, parent: &mut Serializer)
        ensures
            final(parent).robj matches Some(out) && out matches Robj::List(entries)
                && entries@ == bare_entries(self.values@),
    {
        parent.robj = Some(list_from_values(self.values));
    }
}

impl SerializeTuple {
    /// Append one already-converted element.
    pub fn serialize_element(&mut self, value: Robj)
        ensures
            final(self).values@ == old(self).values@.push(value),
    {
        self.values.push(value);
    }

    /// Close the tuple: write a bare list of the accumulated elements into
    /// the parent slot.
    pub fn end(self, parent: &mut Serializer)
        ensures
            final(parent).robj matches Some(out) && out matches Robj::List(entries)
                && entries@ == bare_entries(self.values@),
    {
        parent.robj = Some(list_from_values(self.values));
    }
}

impl SerializeTupleStruct {
    /// Append one already-converted field.
    pub fn serialize_field(&mut self, value: Robj)
        ensures
            final(self).values@ == old(self).values@.push(value),
    {
        self.values.push(value);
    }

    /// Close the tuple struct: write a bare list of the accumulated fields
    /// into the parent slot.
    pub fn end(self, parent: &mut Serializer)
        ensures
            final(parent).robj matches Some(out) && out matches Robj::List(entries)
                && entries@ == bare_entries(self.values@),
    {
        parent.robj = Some(list_from_values(self.values));
    }
}

impl SerializeTupleVariant {
    /// Append one already-converted field.
    pub fn serialize_field(&mut self, value: Robj)
        ensures
            final(self).values@ == old(self).values@.push(value),
            final(self).variant == old(self).variant,
    {
        self.values.push(value);
    }

    /// Close the tuple variant: write the bare list of fields, wrapped in a
    /// single-entry list named after the variant, into the parent slot.
    pub fn end(self, parent: &mut Serializer)
        ensures
            final(parent).robj matches Some(out)
                && tags_list(out, self.variant@, bare_entries(self.values@)),
    {
        let value = list_from_values(self.values);
        let mut pairs: Vec<(String, Robj)> = Vec::new();
        pairs.push((self.variant, value));
        parent.robj = Some(list_from_pairs(pairs));
    }
}

impl SerializeMap {
    /// Record a converted map key. Only a string leaf is accepted: on any
    /// other tree value the key-not-string error carrying the offending value
    /// is returned and the builder is left unchanged.
    pub fn serialize_key(&mut self, key: Robj) -> (res: Result<(), Error>)
        ensures
            (key is Str) ==> (res is Ok && final(self).values == old(self).values
                && final(self).key@ == key->Str_0@),
            !(key is Str) ==> (res matches Err(e) && e == Error::ExpectedString(key)
                && *final(self) == *old(self)),
    {
        match key {
            Robj::Str(s) => {
                self.key = s;
                Ok(())
            },
            other => Err(Error::ExpectedString(other)),
        }
    }

    /// Record a converted map value: consume the pending key (resetting it to
    /// the empty string) and append the (key, value) pair.
    pub fn serialize_value(&mut self, value: Robj)
        ensures
            final(self).values@ == old(self).values@.push((old(self).key, value)),
            final(self).key@ == Seq::<char>::empty(),
    {
        let mut taken = String::new();
        core::mem::swap(&mut self.key, &mut taken);
        self.values.push((taken, value));
    }

    /// Close the map: write a named list of the accumulated pairs, in the
    /// order they were supplied and with duplicate keys all kept, into the
    /// parent slot.
    pub fn end(self, parent: &mut Serializer)
        ensures
            final(parent).robj matches Some(out) && out matches Robj::List(entries)
                && entries@ == named_entries(self.values@),
    {
        parent.robj = Some(list_from_pairs(self.values));
    }
}

impl SerializeStruct {
    /// Append one named field: the name is known at compile time, so no
    /// string check is needed.
    pub fn serialize_field(&mut self, key: &str, value: Robj)
        ensures
            final(self).values@.len() == old(self).values@.len() + 1,
            final(self).values@ == old(self).values@.push(
                final(self).values@.last(),
            ),
            final(self).values@.last().0@ == key@,
            final(self).values@.last().1 == value,
    {
        self.values.push((String::from_str(key), value));
    }

    /// Close the struct: write a named list of the accumulated fields into
    /// the parent slot. The struct's own type name was never recorded.
    pub fn end(self, parent: &mut Serializer)
        ensures
            final(parent).robj matches Some(out) && out matches Robj::List(entries)
                && entries@ == named_entries(self.values@),
    {
        parent.robj = Some(list_from_pairs(self.values));
    }
}

impl SerializeStructVariant {
    /// Append one named field: the name is known at compile time, so no
    /// string check is needed.
    pub fn serialize_field(&mut self, key: &str, value: Robj)
        ensures
            final(self).values@.len() == old(self).values@.len() + 1,
            final(self).values@ == old(self).values@.push(
                final(self).values@.last(),
            ),
            final(self).values@.last().0@ == key@,
            final(self).values@.last().1 == value,
            final(self).variant == old(self).variant,
    {
        self.values.push((String::from_str(key), value));
    }

    /// Close the struct variant: write the named list of fields, wrapped in a
    /// single-entry list named after the variant, into the parent slot.
    pub fn end(self, parent: &mut Serializer)
        ensures
            final(parent).robj matches Some(out)
                && tags_list(out, self.variant@, named_entries(self.values@)),
    {
        let value = list_from_pairs(self.values);
        let mut pairs: Vec<(String, Robj)> = Vec::new();
        pairs.push((self.variant, value));
        parent.robj = Some(list_from_pairs(pairs));
    }
}

} // verus!
