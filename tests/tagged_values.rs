use nbt::{Compound, F32Bits, F64Bits, List, Tag, NBT};

#[test]
fn from_byte_maps_every_defined_code() {
    let expected = [
        Tag::End,
        Tag::Byte,
        Tag::Short,
        Tag::Int,
        Tag::Long,
        Tag::Float,
        Tag::Double,
        Tag::ByteArray,
        Tag::String,
        Tag::List,
        Tag::Compound,
        Tag::IntArray,
        Tag::LongArray,
    ];
    for (code, tag) in expected.iter().enumerate() {
        assert_eq!(Tag::from_byte(code as u8), Some(*tag));
        assert_eq!(tag.to_byte(), code as u8);
    }
}

#[test]
fn from_byte_rejects_unknown_codes() {
    assert_eq!(Tag::from_byte(13), None);
    assert_eq!(Tag::from_byte(200), None);
    assert_eq!(Tag::from_byte(255), None);
}

#[test]
fn scalars_round_trip() {
    let b = NBT::from(-7_i8);
    assert_eq!(b.tag(), Tag::Byte);
    assert_eq!(*b.as_byte(), -7);
    let s = NBT::from(i16::MIN);
    assert_eq!(s.tag(), Tag::Short);
    assert_eq!(*s.as_short(), i16::MIN);
    let i = NBT::from(123_456_i32);
    assert_eq!(i.tag(), Tag::Int);
    assert_eq!(*i.as_int(), 123_456);
    let l = NBT::from(i64::MAX);
    assert_eq!(l.tag(), Tag::Long);
    assert_eq!(*l.as_long(), i64::MAX);
}

#[test]
fn floats_round_trip_through_bits() {
    let f = NBT::from(F32Bits { bits: 1.5f32.to_bits() });
    assert_eq!(f.tag(), Tag::Float);
    assert_eq!(f32::from_bits(f.as_float().bits), 1.5f32);
    let d = NBT::from(F64Bits { bits: (-2.25f64).to_bits() });
    assert_eq!(d.tag(), Tag::Double);
    assert_eq!(f64::from_bits(d.as_double().bits), -2.25f64);
}

#[test]
fn arrays_and_strings_round_trip() {
    let ba = NBT::from(vec![1_i8, -2, 3]);
    assert_eq!(ba.tag(), Tag::ByteArray);
    assert_eq!(ba.as_byte_array(), &vec![1_i8, -2, 3]);
    let ia = NBT::from(vec![10_i32, 20]);
    assert_eq!(ia.tag(), Tag::IntArray);
    assert_eq!(ia.as_int_array(), &vec![10_i32, 20]);
    let la = NBT::from(Vec::<i64>::new());
    assert_eq!(la.tag(), Tag::LongArray);
    assert!(la.as_long_array().is_empty());
    let st = NBT::from(String::from("hello world"));
    assert_eq!(st.tag(), Tag::String);
    assert_eq!(st.as_string(), "hello world");
}

#[test]
fn containers_round_trip() {
    let mut inner = List::new(Tag::Int);
    assert!(inner.put(NBT::Int(4)).is_ok());
    let l = NBT::from(inner);
    assert_eq!(l.tag(), Tag::List);
    assert_eq!(l.as_list().len(), 1);
    assert_eq!(l.as_list().tag(), Tag::Int);
    let mut c = Compound::new();
    c.put("k", NBT::Long(9));
    let n = NBT::from(c);
    assert_eq!(n.tag(), Tag::Compound);
    assert_eq!(n.as_compound().get("k"), Some(&NBT::Long(9)));
}

#[test]
fn mutable_accessors_write_through() {
    let mut n = NBT::Int(1);
    *n.as_mut_int() = 42;
    assert_eq!(n, NBT::Int(42));
    let mut s = NBT::String(String::from("ab"));
    s.as_mut_string().push('c');
    assert_eq!(s.as_string(), "abc");
    let mut a = NBT::LongArray(vec![1, 2]);
    a.as_mut_long_array().push(3);
    assert_eq!(a, NBT::LongArray(vec![1, 2, 3]));
    let mut c = NBT::Compound(Compound::new());
    c.as_mut_compound().put("x", NBT::Short(5));
    assert_eq!(c.as_compound().get("x"), Some(&NBT::Short(5)));
}

#[test]
fn nested_compound_scenario() {
    let mut map = Compound::new();
    map.put("integer", NBT::from(100_i32));
    map.put("string", NBT::from(String::from("hello world")));
    let mut root = Compound::new();
    root.put("byte", NBT::from(120_i8));
    root.put("map", NBT::Compound(map));

    let byte = root.get("byte").unwrap();
    assert_eq!(byte.tag(), Tag::Byte);
    assert_eq!(*byte.as_byte(), 120);
    let nested = root.get("map").unwrap().as_compound();
    assert_eq!(*nested.get("integer").unwrap().as_int(), 100);
    assert_eq!(nested.get("string").unwrap().as_string(), "hello world");
}

#[test]
fn narrowing_by_value() {
    assert_eq!(NBT::Byte(3).into_byte(), 3);
    assert_eq!(NBT::Long(-1).into_long(), -1);
    assert_eq!(NBT::from(String::from("s")).into_string(), "s");
    assert_eq!(NBT::IntArray(vec![1, 2]).into_int_array(), vec![1, 2]);
    assert_eq!(NBT::Float(F32Bits { bits: 7 }).into_float(), F32Bits { bits: 7 });
    let l = NBT::List(List::new(Tag::Byte)).into_list();
    assert_eq!(l.tag(), Tag::Byte);
    let c = NBT::Compound(Compound::new()).into_compound();
    assert!(c.is_empty());
}
