use nbt::{Compound, List, ListError, Tag, NBT};

#[test]
fn compound_last_write_wins() {
    let mut c = Compound::new();
    c.put("key", NBT::Int(1));
    c.put("other", NBT::Byte(3));
    c.put("key", NBT::Short(2));
    assert_eq!(c.get("key"), Some(&NBT::Short(2)));
    assert_eq!(c.get("other"), Some(&NBT::Byte(3)));
}

#[test]
fn compound_absent_key_is_none() {
    let mut c = Compound::new();
    assert_eq!(c.get("missing"), None);
    c.put("present", NBT::Int(1));
    assert_eq!(c.get("missing"), None);
    assert!(c.get_mut("missing").is_none());
    assert_eq!(c.get(""), None);
}

#[test]
fn compound_get_mut_replaces_in_place() {
    let mut c = Compound::new();
    c.put("n", NBT::Int(1));
    *c.get_mut("n").unwrap() = NBT::Long(7);
    assert_eq!(c.get("n"), Some(&NBT::Long(7)));
    *c.get_mut("n").unwrap().as_mut_long() += 1;
    assert_eq!(c.get("n"), Some(&NBT::Long(8)));
}

#[test]
fn compound_empty_key() {
    let mut c = Compound::new();
    c.put("", NBT::Byte(0));
    assert_eq!(c.get(""), Some(&NBT::Byte(0)));
}

#[test]
fn list_rejects_mismatched_tag() {
    let mut l = List::new(Tag::Short);
    assert_eq!(l.put(NBT::Int(5)), Err(ListError::TagMismatch));
    assert_eq!(l.len(), 0);
    assert!(l.is_empty());
    assert_eq!(l.put(NBT::Short(1)), Ok(()));
    assert_eq!(l.len(), 1);
    assert_eq!(l.get(0), Some(&NBT::Short(1)));
}

#[test]
fn list_insert_at_front_shifts() {
    let mut l = List::with_capacity(Tag::Int, 4);
    assert!(l.put(NBT::Int(1)).is_ok());
    assert!(l.put(NBT::Int(2)).is_ok());
    assert!(l.put(NBT::Int(3)).is_ok());
    assert_eq!(l.insert(0, NBT::Int(0)), Ok(()));
    assert_eq!(
        l.as_slice(),
        &[NBT::Int(0), NBT::Int(1), NBT::Int(2), NBT::Int(3)][..]
    );
}

#[test]
fn list_insert_in_middle_and_end() {
    let mut l = List::new(Tag::Byte);
    assert_eq!(l.insert(0, NBT::Byte(1)), Ok(()));
    assert_eq!(l.insert(1, NBT::Byte(3)), Ok(()));
    assert_eq!(l.insert(1, NBT::Byte(2)), Ok(()));
    assert_eq!(l.as_slice(), &[NBT::Byte(1), NBT::Byte(2), NBT::Byte(3)][..]);
}

#[test]
fn list_insert_errors() {
    let mut l = List::new(Tag::Byte);
    assert!(l.put(NBT::Byte(1)).is_ok());
    assert_eq!(l.insert(2, NBT::Byte(2)), Err(ListError::IndexOutOfBounds));
    assert_eq!(l.insert(0, NBT::Int(2)), Err(ListError::TagMismatch));
    assert_eq!(l.insert(9, NBT::Int(2)), Err(ListError::TagMismatch));
    assert_eq!(l.as_slice(), &[NBT::Byte(1)][..]);
}

#[test]
fn list_get_out_of_range() {
    let mut l = List::new(Tag::Long);
    assert_eq!(l.get(0), None);
    assert!(l.get_mut(0).is_none());
    assert!(l.put(NBT::Long(5)).is_ok());
    assert_eq!(l.get(1), None);
    *l.get_mut(0).unwrap() = NBT::Long(6);
    assert_eq!(l.get(0), Some(&NBT::Long(6)));
}

#[test]
fn list_keeps_its_tag() {
    let l = List::new(Tag::Compound);
    assert_eq!(l.tag(), Tag::Compound);
    let e = List::new(Tag::End);
    assert_eq!(e.tag(), Tag::End);
}

#[test]
fn list_of_lists() {
    let mut outer = List::new(Tag::List);
    let mut inner = List::new(Tag::String);
    assert!(inner.put(NBT::String(String::from("a"))).is_ok());
    assert!(outer.put(NBT::List(inner)).is_ok());
    assert_eq!(outer.get(0).unwrap().as_list().get(0).unwrap().as_string(), "a");
}

#[test]
fn compound_counts_distinct_keys() {
    let mut c = Compound::new();
    assert_eq!(c.len(), 0);
    assert!(c.is_empty());
    c.put("a", NBT::Int(1));
    c.put("b", NBT::Int(2));
    c.put("a", NBT::Int(3));
    assert_eq!(c.len(), 2);
    assert!(!c.is_empty());
}
