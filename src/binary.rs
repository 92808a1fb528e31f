//! Nominal integer wrappers. Each one holds a plain integer and carries no
//! behaviour of its own: a codec picks the wire encoding of a field by the
//! wrapper's type.
use vstd::prelude::*;

verus! {

/// A `u32` written as a fixed three-byte unsigned field.
#[allow(non_camel_case_types)]
#[derive(Debug, Clone, Copy, PartialEq, Eq, Structural)]
pub struct u24 {
    val: u32,
}

impl u24 {
    /// The wrapped integer.
    pub closed spec fn value(self) -> u32 {
        self.val
    }

    /// Wraps `val`.
    pub fn new(val: u32) -> (r: u24)
        ensures
            r.value() == val,
    {
        u24 { val }
    }

    /// Returns the wrapped integer.
    pub fn get(self) -> (r: u32)
        ensures
            r == self.value(),
    {
        self.val
    }
}

impl From<u32> for u24 {
    fn from(value: u32) -> (r: u24)
        ensures
            r.value() == value,
    {
        u24::new(value)
    }
}

impl vstd::std_specs::convert::FromSpecImpl<u32> for u24 {
    open spec fn obeys_from_spec() -> bool {
        true
    }

    closed spec fn from_spec(value: u32) -> u24 {
        u24 { val: value }
    }
}

impl From<u24> for u32 {
    fn from(value: u24) -> (r: u32)
        ensures
            r == value.value(),
    {
        value.get()
    }
}

impl vstd::std_specs::convert::FromSpecImpl<u24> for u32 {
    open spec fn obeys_from_spec() -> bool {
        true
    }

    closed spec fn from_spec(value: u24) -> u32 {
        value.value()
    }
}

/// A `u32` written as a fixed four-byte unsigned field.
#[allow(non_camel_case_types)]
#[derive(Debug, Clone, Copy, PartialEq, Eq, Structural)]
pub struct w32 {
    val: u32,
}

impl w32 {
    /// The wrapped integer.
    pub closed spec fn value(self) -> u32 {
        self.val
    }

    /// Wraps `val`.
    pub fn new(val: u32) -> (r: w32)
        ensures
            r.value() == val,
    {
        w32 { val }
    }

    /// Returns the wrapped integer.
    pub fn get(self) -> (r: u32)
        ensures
            r == self.value(),
    {
        self.val
    }
}

impl From<u32> for w32 {
    fn from(value: u32) -> (r: w32)
        ensures
            r.value() == value,
    {
        w32::new(value)
    }
}

impl vstd::std_specs::convert::FromSpecImpl<u32> for w32 {
    open spec fn obeys_from_spec() -> bool {
        true
    }

    closed spec fn from_spec(value: u32) -> w32 {
        w32 { val: value }
    }
}

impl From<w32> for u32 {
    fn from(value: w32) -> (r: u32)
        ensures
            r == value.value(),
    {
        value.get()
    }
}

impl vstd::std_specs::convert::FromSpecImpl<w32> for u32 {
    open spec fn obeys_from_spec() -> bool {
        true
    }

    closed spec fn from_spec(value: w32) -> u32 {
        value.value()
    }
}

/// A `i32` written as a variable-length, zig-zag signed 32-bit field.
#[allow(non_camel_case_types)]
#[derive(Debug, Clone, Copy, PartialEq, Eq, Structural)]
pub struct v32 {
    val: i32,
}

impl v32 {
    /// The wrapped integer.
    pub closed spec fn value(self) -> i32 {
        self.val
    }

    /// Wraps `val`.
    pub fn new(val: i32) -> (r: v32)
        ensures
            r.value() == val,
    {
        v32 { val }
    }

    /// Returns the wrapped integer.
    pub fn get(self) -> (r: i32)
        ensures
            r == self.value(),
    {
        self.val
    }
}

impl From<i32> for v32 {
    fn from(value: i32) -> (r: v32)
        ensures
            r.value() == value,
    {
        v32::new(value)
    }
}

impl vstd::std_specs::convert::FromSpecImpl<i32> for v32 {
    open spec fn obeys_from_spec() -> bool {
        true
    }

    closed spec fn from_spec(value: i32) -> v32 {
        v32 { val: value }
    }
}

impl From<v32> for i32 {
    fn from(value: v32) -> (r: i32)
        ensures
            r == value.value(),
    {
        value.get()
    }
}

impl vstd::std_specs::convert::FromSpecImpl<v32> for i32 {
    open spec fn obeys_from_spec() -> bool {
        true
    }

    closed spec fn from_spec(value: v32) -> i32 {
        value.value()
    }
}

/// A `u64` written as a fixed eight-byte unsigned field.
#[allow(non_camel_case_types)]
#[derive(Debug, Clone, Copy, PartialEq, Eq, Structural)]
pub struct w64 {
    val: u64,
}

impl w64 {
    /// The wrapped integer.
    pub closed spec fn value(self) -> u64 {
        self.val
    }

    /// Wraps `val`.
    pub fn new(val: u64) -> (r: w64)
        ensures
            r.value() == val,
    {
        w64 { val }
    }

    /// Returns the wrapped integer.
    pub fn get(self) -> (r: u64)
        ensures
            r == self.value(),
    {
        self.val
    }
}

impl From<u64> for w64 {
    fn from(value: u64) -> (r: w64)
        ensures
            r.value() == value,
    {
        w64::new(value)
    }
}

impl vstd::std_specs::convert::FromSpecImpl<u64> for w64 {
    open spec fn obeys_from_spec() -> bool {
        true
    }

    closed spec fn from_spec(value: u64) -> w64 {
        w64 { val: value }
    }
}

impl From<w64> for u64 {
    fn from(value: w64) -> (r: u64)
        ensures
            r == value.value(),
    {
        value.get()
    }
}

impl vstd::std_specs::convert::FromSpecImpl<w64> for u64 {
    open spec fn obeys_from_spec() -> bool {
        true
    }

    closed spec fn from_spec(value: w64) -> u64 {
        value.value()
    }
}

/// A `i64` written as a variable-length, zig-zag signed 64-bit field.
#[allow(non_camel_case_types)]
#[derive(Debug, Clone, Copy, PartialEq, Eq, Structural)]
pub struct v64 {
    val: i64,
}

impl v64 {
    /// The wrapped integer.
    pub closed spec fn value(self) -> i64 {
        self.val
    }

    /// Wraps `val`.
    pub fn new(val: i64) -> (r: v64)
        ensures
            r.value() == val,
    {
        v64 { val }
    }

    /// Returns the wrapped integer.
    pub fn get(self) -> (r: i64)
        ensures
            r == self.value(),
    {
        self.val
    }
}

impl From<i64> for v64 {
    fn from(value: i64) -> (r: v64)
        ensures
            r.value() == value,
    {
        v64::new(value)
    }
}

impl vstd::std_specs::convert::FromSpecImpl<i64> for v64 {
    open spec fn obeys_from_spec() -> bool {
        true
    }

    closed spec fn from_spec(value: i64) -> v64 {
        v64 { val: value }
    }
}

impl From<v64> for i64 {
    fn from(value: v64) -> (r: i64)
        ensures
            r == value.value(),
    {
        value.get()
    }
}

impl vstd::std_specs::convert::FromSpecImpl<v64> for i64 {
    open spec fn obeys_from_spec() -> bool {
        true
    }

    closed spec fn from_spec(value: v64) -> i64 {
        value.value()
    }
}

} // verus!
