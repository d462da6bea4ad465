//! The dynamically typed tree value produced by conversion, and the error
//! surface of the conversion.

use vstd::prelude::*;

verus! {

/// A tree value modelled on R's object system: a null value, scalar leaves of
/// each primitive kind, a raw byte vector, and an ordered list whose entries
/// each carry an optional name.
///
/// A list whose names are all absent is a bare ordered sequence; a list whose
/// names are present is record-like; a single-entry list whose one name is an
/// enum variant name is the tagged-variant shape.
#[derive(Debug, PartialEq)]
pub enum Robj {
    /// The null value; also stands for an absent optional and for unit.
    Null,
    /// A boolean scalar.
    Logical(bool),
    /// An 8-bit signed integer scalar.
    Int8(i8),
    /// A 16-bit signed integer scalar.
    Int16(i16),
    /// A 32-bit signed integer scalar.
    Int32(i32),
    /// A 64-bit signed integer scalar.
    Int64(i64),
    /// An 8-bit unsigned integer scalar.
    UInt8(u8),
    /// A 16-bit unsigned integer scalar.
    UInt16(u16),
    /// A 32-bit unsigned integer scalar.
    UInt32(u32),
    /// A 64-bit unsigned integer scalar.
    UInt64(u64),
    /// A 32-bit real scalar, held as its IEEE-754 bit pattern.
    Real32(u32),
    /// A 64-bit real scalar, held as its IEEE-754 bit pattern.
    Real64(u64),
    /// A UTF-8 string scalar.
    Str(String),
    /// A raw byte vector.
    Bytes(Vec<u8>),
    /// An ordered list of (optional name, value) entries.
    List(Vec<(Option<String>, Robj)>),
}

impl Robj {
    /// The string-extraction query: the string content of a string leaf,
    /// absent for every other tree value. Used to validate map keys.
    pub fn as_str(&self) -> (r: Option<&str>)
        ensures
            (r is Some) <==> (self is Str),
            self matches Robj::Str(s) ==> (r matches Some(t) && t@ == s@),
    {
        match self {
            Robj::Str(s) => Some(s.as_str()),
            _ => None,
        }
    }
}

/// The list entries of a bare (unnamed) ordered list holding the given
/// element values in order.
pub open spec fn bare_entries(elems: Seq<Robj>) -> Seq<(Option<String>, Robj)> {
    elems.map_values(|v: Robj| (Option::<String>::None, v))
}

/// The list entries of a named ordered list (a record) holding the given
/// (key, value) pairs in order.
pub open spec fn named_entries(pairs: Seq<(String, Robj)>) -> Seq<(Option<String>, Robj)> {
    pairs.map_values(|p: (String, Robj)| (Some(p.0), p.1))
}

/// `out` is the tagged-variant shape: a single-entry list whose one name is
/// `name` and whose value is `payload`.
pub open spec fn tags_value(out: Robj, name: Seq<char>, payload: Robj) -> bool {
    &&& out matches Robj::List(entries)
    &&& entries@.len() == 1
    &&& (entries@[0].0 matches Some(k) && k@ == name)
    &&& entries@[0].1 == payload
}

/// `out` is the tagged-variant shape whose payload is itself a list with the
/// given entries: a single-entry list named `name` around a list.
pub open spec fn tags_list(out: Robj, name: Seq<char>, inner: Seq<(Option<String>, Robj)>) -> bool {
    &&& out matches Robj::List(entries)
    &&& entries@.len() == 1
    &&& (entries@[0].0 matches Some(k) && k@ == name)
    &&& (entries@[0].1 matches Robj::List(payload) && payload@ == inner)
}

/// A bare list holds exactly the accumulated elements: one entry per element,
/// in input order, every entry unnamed. The sequence, tuple, and tuple-struct
/// builders all finalize to `bare_entries` of their elements, so a conversion
/// driven through any of the three yields this same list.
pub proof fn lemma_bare_entries_elementwise(elems: Seq<Robj>)
    ensures
        bare_entries(elems).len() == elems.len(),
        forall|i: int|
            0 <= i < elems.len() ==> bare_entries(elems)[i] == (Option::<String>::None, elems[i]),
{
}

/// A record holds one entry per supplied pair, in the order the pairs were
/// supplied: entry `i` is named by key `i` and holds value `i`. Nothing is
/// merged or dropped, so pairs with duplicate keys each keep an entry of
/// their own.
pub proof fn lemma_named_entries_keep_order_and_duplicates(pairs: Seq<(String, Robj)>)
    ensures
        named_entries(pairs).len() == pairs.len(),
        forall|i: int|
            0 <= i < pairs.len() ==> named_entries(pairs)[i] == (Some(pairs[i].0), pairs[i].1),
{
}

/// Every variant shape is tagged by the same convention: the output is a
/// single-entry record whose one name is the variant name.
pub proof fn lemma_tagging_uniform(out: Robj, name: Seq<char>, payload: Robj)
    requires
        tags_value(out, name, payload),
    ensures
        out matches Robj::List(entries) && entries@.len() == 1 && (entries@[0].0 matches Some(k)
            && k@ == name),
{
}

/// A tagged list is the same convention applied to a list payload: there is a
/// payload tree value, it is a list, and its entries are the inner entries.
pub proof fn lemma_tags_list_is_tagging(
    out: Robj,
    name: Seq<char>,
    inner: Seq<(Option<String>, Robj)>,
)
    requires
        tags_list(out, name, inner),
    ensures
        exists|payload: Robj|
            tags_value(out, name, payload) && (payload matches Robj::List(entries) && entries@
                == inner),
{
    let payload = match out {
        Robj::List(entries) => entries@[0].1,
        _ => Robj::Null,
    };
    assert(tags_value(out, name, payload));
}

/// Wrap an ordered sequence of element values as a bare (unnamed) list.
pub fn list_from_values(values: Vec<Robj>) -> (r: Robj)
    ensures
        r matches Robj::List(entries) && entries@ == bare_entries(values@),
{
    let ghost all = values@;
    let mut rest = values;
    let mut entries: Vec<(Option<String>, Robj)> = Vec::new();
    while rest.len() > 0
        invariant
            entries@.len() + rest@.len() == all.len(),
            rest@ == all.skip(entries@.len() as int),
            entries@ == bare_entries(all.take(entries@.len() as int)),
        decreases rest@.len(),
    {
        let ghost k = entries@.len() as int;
        let v = rest.remove(0);
        proof {
            assert(v == all[k]);
            assert(rest@ =~= all.skip(k + 1));
        }
        entries.push((None, v));
        proof {
            assert(entries@ =~= bare_entries(all.take(k + 1)));
        }
    }
    proof {
        assert(all.take(all.len() as int) =~= all);
    }
    Robj::List(entries)
}

/// Wrap an ordered sequence of (key, value) pairs as a named list (a record).
/// Entries keep their order; duplicate keys are all kept.
pub fn list_from_pairs(pairs: Vec<(String, Robj)>) -> (r: Robj)
    ensures
        r matches Robj::List(entries) && entries@ == named_entries(pairs@),
{
    let ghost all = pairs@;
    let mut rest = pairs;
    let mut entries: Vec<(Option<String>, Robj)> = Vec::new();
    while rest.len() > 0
        invariant
            entries@.len() + rest@.len() == all.len(),
            rest@ == all.skip(entries@.len() as int),
            entries@ == named_entries(all.take(entries@.len() as int)),
        decreases rest@.len(),
    {
        let ghost k = entries@.len() as int;
        let (key, value) = rest.remove(0);
        proof {
            assert(rest@ =~= all.skip(k + 1));
        }
        entries.push((Some(key), value));
        proof {
            assert(entries@ =~= named_entries(all.take(k + 1)));
        }
    }
    proof {
        assert(all.take(all.len() as int) =~= all);
    }
    Robj::List(entries)
}

/// A conversion failure.
#[derive(Debug, PartialEq)]
pub enum Error {
    /// A map key's converted tree value was not a string leaf; carries the
    /// offending converted value.
    ExpectedString(Robj),
    /// An arbitrary message injected by the value being converted.
    Other(String),
}

impl Error {
    /// The custom-message error constructor of the conversion protocol.
    pub fn custom(msg: String) -> (e: Error)
        ensures
            e == Error::Other(msg),
    {
        Error::Other(msg)
    }
}

} // verus!
