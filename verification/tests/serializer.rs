use extendr_api::robj::{Error, Robj};
use extendr_api::serializer::Serializer;

fn leaf_i32(v: i32) -> Robj {
    let mut s = Serializer::new();
    s.serialize_i32(v);
    s.take().unwrap()
}

fn leaf_str(v: &str) -> Robj {
    let mut s = Serializer::new();
    s.serialize_str(v);
    s.take().unwrap()
}

fn bare(values: Vec<Robj>) -> Vec<(Option<String>, Robj)> {
    values.into_iter().map(|v| (None, v)).collect()
}

fn named(pairs: Vec<(&str, Robj)>) -> Vec<(Option<String>, Robj)> {
    pairs
        .into_iter()
        .map(|(k, v)| (Some(k.to_string()), v))
        .collect()
}

#[test]
fn primitives_each_kind() {
    let mut s = Serializer::new();
    s.serialize_bool(true);
    assert_eq!(s.take(), Some(Robj::Logical(true)));

    let mut s = Serializer::new();
    s.serialize_i8(-8);
    assert_eq!(s.take(), Some(Robj::Int8(-8)));

    let mut s = Serializer::new();
    s.serialize_i16(-16);
    assert_eq!(s.take(), Some(Robj::Int16(-16)));

    let mut s = Serializer::new();
    s.serialize_i32(-32);
    assert_eq!(s.take(), Some(Robj::Int32(-32)));

    let mut s = Serializer::new();
    s.serialize_i64(-64);
    assert_eq!(s.take(), Some(Robj::Int64(-64)));

    let mut s = Serializer::new();
    s.serialize_u8(8);
    assert_eq!(s.take(), Some(Robj::UInt8(8)));

    let mut s = Serializer::new();
    s.serialize_u16(16);
    assert_eq!(s.take(), Some(Robj::UInt16(16)));

    let mut s = Serializer::new();
    s.serialize_u32(32);
    assert_eq!(s.take(), Some(Robj::UInt32(32)));

    let mut s = Serializer::new();
    s.serialize_u64(64);
    assert_eq!(s.take(), Some(Robj::UInt64(64)));

    let mut s = Serializer::new();
    s.serialize_f32_bits((1.5f32).to_bits());
    assert_eq!(s.take(), Some(Robj::Real32((1.5f32).to_bits())));

    let mut s = Serializer::new();
    s.serialize_f64_bits((2.25f64).to_bits());
    assert_eq!(s.take(), Some(Robj::Real64((2.25f64).to_bits())));

    let mut s = Serializer::new();
    s.serialize_char('q');
    assert_eq!(s.take(), Some(Robj::Str("q".to_string())));

    let mut s = Serializer::new();
    s.serialize_str("hello");
    assert_eq!(s.take(), Some(Robj::Str("hello".to_string())));

    let mut s = Serializer::new();
    s.serialize_bytes(&[1u8, 2, 3]);
    assert_eq!(s.take(), Some(Robj::Bytes(vec![1u8, 2, 3])));
}

#[test]
fn primitives_idempotent() {
    // Converting the same value twice yields the same leaf.
    assert_eq!(leaf_i32(17), leaf_i32(17));
    assert_eq!(leaf_str("same"), leaf_str("same"));
    let mut a = Serializer::new();
    a.serialize_bool(false);
    let mut b = Serializer::new();
    b.serialize_bool(false);
    assert_eq!(a.take(), b.take());
}

#[test]
fn none_and_unit_both_null() {
    let mut a = Serializer::new();
    a.serialize_none();
    let mut b = Serializer::new();
    b.serialize_unit();
    let none_out = a.take();
    let unit_out = b.take();
    assert_eq!(none_out, Some(Robj::Null));
    assert_eq!(none_out, unit_out);

    let mut c = Serializer::new();
    c.serialize_unit_struct("Nothing");
    assert_eq!(c.take(), Some(Robj::Null));
}

#[test]
fn seq_tuple_tuple_struct_agree() {
    // The same three elements through each of the three entry points.
    let mut a = Serializer::new();
    let mut ba = a.serialize_seq(Some(3));
    ba.serialize_element(leaf_i32(1));
    ba.serialize_element(leaf_i32(2));
    ba.serialize_element(leaf_i32(3));
    ba.end(&mut a);

    let mut b = Serializer::new();
    let mut bb = b.serialize_tuple(3);
    bb.serialize_element(leaf_i32(1));
    bb.serialize_element(leaf_i32(2));
    bb.serialize_element(leaf_i32(3));
    bb.end(&mut b);

    let mut c = Serializer::new();
    let mut bc = c.serialize_tuple_struct("Triple", 3);
    bc.serialize_field(leaf_i32(1));
    bc.serialize_field(leaf_i32(2));
    bc.serialize_field(leaf_i32(3));
    bc.end(&mut c);

    let expected = Robj::List(bare(vec![leaf_i32(1), leaf_i32(2), leaf_i32(3)]));
    let out_a = a.take();
    assert_eq!(out_a, Some(expected));
    assert_eq!(out_a, b.take());
    assert_eq!(c.take(), out_a);
}

#[test]
fn empty_seq_is_empty_list() {
    let mut s = Serializer::new();
    let b = s.serialize_seq(None);
    b.end(&mut s);
    assert_eq!(s.take(), Some(Robj::List(vec![])));
}

#[test]
fn map_keeps_order_and_duplicates() {
    let mut s = Serializer::new();
    let mut m = s.serialize_map(Some(3));
    m.serialize_key(leaf_str("a")).unwrap();
    m.serialize_value(leaf_i32(1));
    m.serialize_key(leaf_str("b")).unwrap();
    m.serialize_value(leaf_i32(2));
    m.serialize_key(leaf_str("a")).unwrap();
    m.serialize_value(leaf_i32(3));
    m.end(&mut s);
    let expected = Robj::List(named(vec![
        ("a", leaf_i32(1)),
        ("b", leaf_i32(2)),
        ("a", leaf_i32(3)),
    ]));
    assert_eq!(s.take(), Some(expected));
}

#[test]
fn map_non_string_key_fails() {
    let mut s = Serializer::new();
    let mut m = s.serialize_map(None);
    let res = m.serialize_key(leaf_i32(42));
    assert_eq!(res, Err(Error::ExpectedString(Robj::Int32(42))));
    // The conversion aborts: nothing was accumulated and no record was
    // produced.
    assert_eq!(m.values, vec![]);
    assert_eq!(s.take(), None);
}

#[test]
fn unit_variant_tagging() {
    let mut s = Serializer::new();
    s.serialize_unit_variant("Color", 0, "Red");
    let expected = Robj::List(named(vec![("Red", Robj::Null)]));
    assert_eq!(s.take(), Some(expected));
}

#[test]
fn newtype_variant_tagging() {
    let mut s = Serializer::new();
    s.serialize_newtype_variant("Wrapped", 0, "Wrapped", leaf_i32(5));
    let expected = Robj::List(named(vec![("Wrapped", Robj::Int32(5))]));
    assert_eq!(s.take(), Some(expected));
}

#[test]
fn tuple_variant_tagging() {
    let mut s = Serializer::new();
    let mut b = s.serialize_tuple_variant("Shape", 1, "Point3", 3);
    b.serialize_field(leaf_i32(1));
    b.serialize_field(leaf_i32(2));
    b.serialize_field(leaf_i32(3));
    b.end(&mut s);
    let inner = Robj::List(bare(vec![leaf_i32(1), leaf_i32(2), leaf_i32(3)]));
    let expected = Robj::List(named(vec![("Point3", inner)]));
    assert_eq!(s.take(), Some(expected));
}

#[test]
fn struct_variant_tagging() {
    let mut s = Serializer::new();
    let mut b = s.serialize_struct_variant("Figure", 2, "Shape", 2);
    b.serialize_field("w", leaf_i32(1));
    b.serialize_field("h", leaf_i32(2));
    b.end(&mut s);
    let inner = Robj::List(named(vec![("w", leaf_i32(1)), ("h", leaf_i32(2))]));
    let expected = Robj::List(named(vec![("Shape", inner)]));
    assert_eq!(s.take(), Some(expected));
}

#[test]
fn struct_with_nested_seq() {
    // A struct { int: 1, seq: ["a", "b"] } becomes a named record whose
    // second field is a bare list of string leaves.
    let mut inner = Serializer::new();
    let mut ib = inner.serialize_seq(Some(2));
    ib.serialize_element(leaf_str("a"));
    ib.serialize_element(leaf_str("b"));
    ib.end(&mut inner);
    let seq_value = inner.take().unwrap();

    let mut s = Serializer::new();
    let mut b = s.serialize_struct("Test", 2);
    b.serialize_field("int", leaf_i32(1));
    b.serialize_field("seq", seq_value);
    b.end(&mut s);

    let expected = Robj::List(named(vec![
        ("int", Robj::Int32(1)),
        (
            "seq",
            Robj::List(bare(vec![
                Robj::Str("a".to_string()),
                Robj::Str("b".to_string()),
            ])),
        ),
    ]));
    assert_eq!(s.take(), Some(expected));
}

#[test]
fn nested_failure_propagates() {
    // Converting the third element of a ten-element sequence fails; the
    // failure aborts the whole conversion unchanged and no partial list is
    // observable.
    let mut s = Serializer::new();
    let mut b = s.serialize_seq(Some(10));
    let mut failure = None;
    for i in 0..10 {
        if i == 2 {
            // This element is a map with a non-string key: its own
            // conversion fails before any value is produced.
            let mut child = Serializer::new();
            let mut m = child.serialize_map(None);
            match m.serialize_key(leaf_i32(i)) {
                Ok(()) => unreachable!(),
                Err(e) => {
                    failure = Some(e);
                    break;
                }
            }
        }
        b.serialize_element(leaf_i32(i));
    }
    // The error reaches the top level unchanged and the outer slot was never
    // written.
    assert_eq!(failure, Some(Error::ExpectedString(Robj::Int32(2))));
    assert_eq!(s.take(), None);
}

#[test]
fn map_value_consumes_pending_key() {
    let mut s = Serializer::new();
    let mut m = s.serialize_map(None);
    m.serialize_key(leaf_str("k")).unwrap();
    assert_eq!(m.key, "k".to_string());
    m.serialize_value(leaf_i32(9));
    assert_eq!(m.key, String::new());
    m.end(&mut s);
    assert_eq!(s.take(), Some(Robj::List(named(vec![("k", leaf_i32(9))]))));
}

#[test]
fn as_str_query() {
    assert_eq!(leaf_str("x").as_str(), Some("x"));
    assert_eq!(leaf_i32(1).as_str(), None);
    assert_eq!(Robj::Null.as_str(), None);
}

#[test]
fn custom_error_message() {
    let e = Error::custom("validation failed".to_string());
    assert_eq!(e, Error::Other("validation failed".to_string()));
}
