use nbt::{u24, v32, v64, w32, w64};

#[test]
fn wrappers_keep_their_integer() {
    assert_eq!(u24::new(0x00ab_cdef).get(), 0x00ab_cdef);
    assert_eq!(w32::new(u32::MAX).get(), u32::MAX);
    assert_eq!(v32::new(-5).get(), -5);
    assert_eq!(w64::new(u64::MAX).get(), u64::MAX);
    assert_eq!(v64::new(i64::MIN).get(), i64::MIN);
}

#[test]
fn wrappers_convert_both_ways() {
    let a: u24 = u24::from(7_u32);
    assert_eq!(u32::from(a), 7);
    let b: v32 = v32::from(-1_i32);
    assert_eq!(i32::from(b), -1);
    let c: w64 = 9_u64.into();
    let back: u64 = c.into();
    assert_eq!(back, 9);
    let d: v64 = v64::from(-300_i64);
    assert_eq!(i64::from(d), -300);
    let e: w32 = w32::from(12_u32);
    assert_eq!(u32::from(e), 12);
}

#[test]
fn wrappers_compare_by_value() {
    assert_eq!(w32::new(3), w32::new(3));
    assert_ne!(w32::new(3), w32::new(4));
    let x = v64::new(8);
    let y = x;
    assert_eq!(x, y);
}
