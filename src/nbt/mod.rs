use vstd::prelude::*;
use vstd::std_specs::convert::FromSpec;

pub mod compound;
pub mod list;

pub use compound::Compound;
pub use list::{List, ListError};

verus! {

/// Identifies which payload kind an [`NBT`] value holds. `End` is the
/// terminator marker of the wire format and never the tag of a value.
#[derive(Debug, Clone, Copy, PartialEq, Eq, Structural)]
pub enum Tag {
    End,
    Byte,
    Short,
    Int,
    Long,
    Float,
    Double,
    ByteArray,
    String,
    List,
    Compound,
    IntArray,
    LongArray,
}

/// The byte code of each tag on the wire.
pub open spec fn byte_code(t: Tag) -> u8 {
    match t {
        Tag::End => 0,
        Tag::Byte => 1,
        Tag::Short => 2,
        Tag::Int => 3,
        Tag::Long => 4,
        Tag::Float => 5,
        Tag::Double => 6,
        Tag::ByteArray => 7,
        Tag::String => 8,
        Tag::List => 9,
        Tag::Compound => 10,
        Tag::IntArray => 11,
        Tag::LongArray => 12,
    }
}

impl Tag {
    /// Decodes a byte code; codes above 12 are unknown.
    pub fn from_byte(byte: u8) -> (r: Option<Tag>)
        ensures
            r is None <==> byte > 12,
            r matches Some(t) ==> byte_code(t) == byte,
    {
        match byte {
            0 => Some(Tag::End),
            1 => Some(Tag::Byte),
            2 => Some(Tag::Short),
            3 => Some(Tag::Int),
            4 => Some(Tag::Long),
            5 => Some(Tag::Float),
            6 => Some(Tag::Double),
            7 => Some(Tag::ByteArray),
            8 => Some(Tag::String),
            9 => Some(Tag::List),
            10 => Some(Tag::Compound),
            11 => Some(Tag::IntArray),
            12 => Some(Tag::LongArray),
            _ => None,
        }
    }

    /// The byte code of this tag.
    pub fn to_byte(self) -> (r: u8)
        ensures
            r == byte_code(self),
    {
        match self {
            Tag::End => 0,
            Tag::Byte => 1,
            Tag::Short => 2,
            Tag::Int => 3,
            Tag::Long => 4,
            Tag::Float => 5,
            Tag::Double => 6,
            Tag::ByteArray => 7,
            Tag::String => 8,
            Tag::List => 9,
            Tag::Compound => 10,
            Tag::IntArray => 11,
            Tag::LongArray => 12,
        }
    }
}

/// The byte codes form a bijection between the tags and `0..=12`.
pub proof fn byte_code_bijection(a: Tag, b: Tag)
    ensures
        byte_code(a) <= 12,
        byte_code(a) == byte_code(b) ==> a == b,
{
}

/// The IEEE 754 single-precision bit pattern of a `Float` payload.
#[derive(Debug, Clone, Copy, PartialEq, Eq, Structural)]
pub struct F32Bits {
    pub bits: u32,
}

/// The IEEE 754 double-precision bit pattern of a `Double` payload.
#[derive(Debug, Clone, Copy, PartialEq, Eq, Structural)]
pub struct F64Bits {
    pub bits: u64,
}

/// A tagged value: exactly one payload out of twelve kinds. Arrays, strings
/// and nested containers are owned by the value.
#[derive(Debug, PartialEq)]
pub enum NBT {
    Byte(i8),
    Short(i16),
    Int(i32),
    Long(i64),
    Float(F32Bits),
    Double(F64Bits),
    ByteArray(Vec<i8>),
    String(String),
    List(List),
    Compound(Compound),
    IntArray(Vec<i32>),
    LongArray(Vec<i64>),
}

impl NBT {
    /// The tag of the active payload.
    pub open spec fn spec_tag(self) -> Tag {
        match self {
            NBT::Byte(_) => Tag::Byte,
            NBT::Short(_) => Tag::Short,
            NBT::Int(_) => Tag::Int,
            NBT::Long(_) => Tag::Long,
            NBT::Float(_) => Tag::Float,
            NBT::Double(_) => Tag::Double,
            NBT::ByteArray(_) => Tag::ByteArray,
            NBT::String(_) => Tag::String,
            NBT::List(_) => Tag::List,
            NBT::Compound(_) => Tag::Compound,
            NBT::IntArray(_) => Tag::IntArray,
            NBT::LongArray(_) => Tag::LongArray,
        }
    }

    /// Returns the tag of the active payload.
    pub fn tag(&self) -> (r: Tag)
        ensures
            r == self.spec_tag(),
    {
        match self {
            NBT::Byte(_) => Tag::Byte,
            NBT::Short(_) => Tag::Short,
            NBT::Int(_) => Tag::Int,
            NBT::Long(_) => Tag::Long,
            NBT::Float(_) => Tag::Float,
            NBT::Double(_) => Tag::Double,
            NBT::ByteArray(_) => Tag::ByteArray,
            NBT::String(_) => Tag::String,
            NBT::List(_) => Tag::List,
            NBT::Compound(_) => Tag::Compound,
            NBT::IntArray(_) => Tag::IntArray,
            NBT::LongArray(_) => Tag::LongArray,
        }
    }

    /// Borrows the payload of a `Byte` value.
    pub fn as_byte(&self) -> (r: &i8)
        requires
            self.spec_tag() == Tag::Byte,
        ensures
            *r == self->Byte_0,
    {
        match self {
            NBT::Byte(val) => val,
            _ => unreached(),
        }
    }

    /// Mutably borrows the payload of a `Byte` value.
    pub fn as_mut_byte(&mut self) -> (r: &mut i8)
        requires
            old(self).spec_tag() == Tag::Byte,
        ensures
            *r == old(self)->Byte_0,
            *final(self) == NBT::Byte(*final(r)),
    {
        match self {
            NBT::Byte(val) => val,
            _ => unreached(),
        }
    }

    /// Borrows the payload of a `Short` value.
    pub fn as_short(&self) -> (r: &i16)
        requires
            self.spec_tag() == Tag::Short,
        ensures
            *r == self->Short_0,
    {
        match self {
            NBT::Short(val) => val,
            _ => unreached(),
        }
    }

    /// Mutably borrows the payload of a `Short` value.
    pub fn as_mut_short(&mut self) -> (r: &mut i16)
        requires
            old(self).spec_tag() == Tag::Short,
        ensures
            *r == old(self)->Short_0,
            *final(self) == NBT::Short(*final(r)),
    {
        match self {
            NBT::Short(val) => val,
            _ => unreached(),
        }
    }

    /// Borrows the payload of an `Int` value.
    pub fn as_int(&self) -> (r: &i32)
        requires
            self.spec_tag() == Tag::Int,
        ensures
            *r == self->Int_0,
    {
        match self {
            NBT::Int(val) => val,
            _ => unreached(),
        }
    }

    /// Mutably borrows the payload of an `Int` value.
    pub fn as_mut_int(&mut self) -> (r: &mut i32)
        requires
            old(self).spec_tag() == Tag::Int,
        ensures
            *r == old(self)->Int_0,
            *final(self) == NBT::Int(*final(r)),
    {
        match self {
            NBT::Int(val) => val,
            _ => unreached(),
        }
    }

    /// Borrows the payload of a `Long` value.
    pub fn as_long(&self) -> (r: &i64)
        requires
            self.spec_tag() == Tag::Long,
        ensures
            *r == self->Long_0,
    {
        match self {
            NBT::Long(val) => val,
            _ => unreached(),
        }
    }

    /// Mutably borrows the payload of a `Long` value.
    pub fn as_mut_long(&mut self) -> (r: &mut i64)
        requires
            old(self).spec_tag() == Tag::Long,
        ensures
            *r == old(self)->Long_0,
            *final(self) == NBT::Long(*final(r)),
    {
        match self {
            NBT::Long(val) => val,
            _ => unreached(),
        }
    }

    /// Borrows the payload of a `Float` value.
    pub fn as_float(&self) -> (r: &F32Bits)
        requires
            self.spec_tag() == Tag::Float,
        ensures
            *r == self->Float_0,
    {
        match self {
            NBT::Float(val) => val,
            _ => unreached(),
        }
    }

    /// Mutably borrows the payload of a `Float` value.
    pub fn as_mut_float(&mut self) -> (r: &mut F32Bits)
        requires
            old(self).spec_tag() == Tag::Float,
        ensures
            *r == old(self)->Float_0,
            *final(self) == NBT::Float(*final(r)),
    {
        match self {
            NBT::Float(val) => val,
            _ => unreached(),
        }
    }

    /// Borrows the payload of a `Double` value.
    pub fn as_double(&self) -> (r: &F64Bits)
        requires
            self.spec_tag() == Tag::Double,
        ensures
            *r == self->Double_0,
    {
        match self {
            NBT::Double(val) => val,
            _ => unreached(),
        }
    }

    /// Mutably borrows the payload of a `Double` value.
    pub fn as_mut_double(&mut self) -> (r: &mut F64Bits)
        requires
            old(self).spec_tag() == Tag::Double,
        ensures
            *r == old(self)->Double_0,
            *final(self) == NBT::Double(*final(r)),
    {
        match self {
            NBT::Double(val) => val,
            _ => unreached(),
        }
    }

    /// Borrows the payload of a `ByteArray` value.
    pub fn as_byte_array(&self) -> (r: &Vec<i8>)
        requires
            self.spec_tag() == Tag::ByteArray,
        ensures
            *r == self->ByteArray_0,
    {
        match self {
            NBT::ByteArray(val) => val,
            _ => unreached(),
        }
    }

    /// Mutably borrows the payload of a `ByteArray` value.
    pub fn as_mut_byte_array(&mut self) -> (r: &mut Vec<i8>)
        requires
            old(self).spec_tag() == Tag::ByteArray,
        ensures
            *r == old(self)->ByteArray_0,
            *final(self) == NBT::ByteArray(*final(r)),
    {
        match self {
            NBT::ByteArray(val) => val,
            _ => unreached(),
        }
    }

    /// Borrows the payload of a `String` value.
    pub fn as_string(&self) -> (r: &String)
        requires
            self.spec_tag() == Tag::String,
        ensures
            *r == self->String_0,
    {
        match self {
            NBT::String(val) => val,
            _ => unreached(),
        }
    }

    /// Mutably borrows the payload of a `String` value.
    pub fn as_mut_string(&mut self) -> (r: &mut String)
        requires
            old(self).spec_tag() == Tag::String,
        ensures
            *r == old(self)->String_0,
            *final(self) == NBT::String(*final(r)),
    {
        match self {
            NBT::String(val) => val,
            _ => unreached(),
        }
    }

    /// Borrows the payload of a `List` value.
    pub fn as_list(&self) -> (r: &List)
        requires
            self.spec_tag() == Tag::List,
        ensures
            *r == self->List_0,
    {
        match self {
            NBT::List(val) => val,
            _ => unreached(),
        }
    }

    /// Mutably borrows the payload of a `List` value.
    pub fn as_mut_list(&mut self) -> (r: &mut List)
        requires
            old(self).spec_tag() == Tag::List,
        ensures
            *r == old(self)->List_0,
            *final(self) == NBT::List(*final(r)),
    {
        match self {
            NBT::List(val) => val,
            _ => unreached(),
        }
    }

    /// Borrows the payload of a `Compound` value.
    pub fn as_compound(&self) -> (r: &Compound)
        requires
            self.spec_tag() == Tag::Compound,
        ensures
            *r == self->Compound_0,
    {
        match self {
            NBT::Compound(val) => val,
            _ => unreached(),
        }
    }

    /// Mutably borrows the payload of a `Compound` value.
    pub fn as_mut_compound(&mut self) -> (r: &mut Compound)
        requires
            old(self).spec_tag() == Tag::Compound,
        ensures
            *r == old(self)->Compound_0,
            *final(self) == NBT::Compound(*final(r)),
    {
        match self {
            NBT::Compound(val) => val,
            _ => unreached(),
        }
    }

    /// Borrows the payload of an `IntArray` value.
    pub fn as_int_array(&self) -> (r: &Vec<i32>)
        requires
            self.spec_tag() == Tag::IntArray,
        ensures
            *r == self->IntArray_0,
    {
        match self {
            NBT::IntArray(val) => val,
            _ => unreached(),
        }
    }

    /// Mutably borrows the payload of an `IntArray` value.
    pub fn as_mut_int_array(&mut self) -> (r: &mut Vec<i32>)
        requires
            old(self).spec_tag() == Tag::IntArray,
        ensures
            *r == old(self)->IntArray_0,
            *final(self) == NBT::IntArray(*final(r)),
    {
        match self {
            NBT::IntArray(val) => val,
            _ => unreached(),
        }
    }

    /// Borrows the payload of a `LongArray` value.
    pub fn as_long_array(&self) -> (r: &Vec<i64>)
        requires
            self.spec_tag() == Tag::LongArray,
        ensures
            *r == self->LongArray_0,
    {
        match self {
            NBT::LongArray(val) => val,
            _ => unreached(),
        }
    }

    /// Mutably borrows the payload of a `LongArray` value.
    pub fn as_mut_long_array(&mut self) -> (r: &mut Vec<i64>)
        requires
            old(self).spec_tag() == Tag::LongArray,
        ensures
            *r == old(self)->LongArray_0,
            *final(self) == NBT::LongArray(*final(r)),
    {
        match self {
            NBT::LongArray(val) => val,
            _ => unreached(),
        }
    }

    /// Takes the payload out of a `Byte` value.
    pub fn into_byte(self) -> (r: i8)
        requires
            self.spec_tag() == Tag::Byte,
        ensures
            r == self->Byte_0,
    {
        match self {
            NBT::Byte(val) => val,
            _ => unreached(),
        }
    }

    /// Takes the payload out of a `Short` value.
    pub fn into_short(self) -> (r: i16)
        requires
            self.spec_tag() == Tag::Short,
        ensures
            r == self->Short_0,
    {
        match self {
            NBT::Short(val) => val,
            _ => unreached(),
        }
    }

    /// Takes the payload out of an `Int` value.
    pub fn into_int(self) -> (r: i32)
        requires
            self.spec_tag() == Tag::Int,
        ensures
            r == self->Int_0,
    {
        match self {
            NBT::Int(val) => val,
            _ => unreached(),
        }
    }

    /// Takes the payload out of a `Long` value.
    pub fn into_long(self) -> (r: i64)
        requires
            self.spec_tag() == Tag::Long,
        ensures
            r == self->Long_0,
    {
        match self {
            NBT::Long(val) => val,
            _ => unreached(),
        }
    }

    /// Takes the payload out of a `Float` value.
    pub fn into_float(self) -> (r: F32Bits)
        requires
            self.spec_tag() == Tag::Float,
        ensures
            r == self->Float_0,
    {
        match self {
            NBT::Float(val) => val,
            _ => unreached(),
        }
    }

    /// Takes the payload out of a `Double` value.
    pub fn into_double(self) -> (r: F64Bits)
        requires
            self.spec_tag() == Tag::Double,
        ensures
            r == self->Double_0,
    {
        match self {
            NBT::Double(val) => val,
            _ => unreached(),
        }
    }

    /// Takes the payload out of a `ByteArray` value.
    pub fn into_byte_array(self) -> (r: Vec<i8>)
        requires
            self.spec_tag() == Tag::ByteArray,
        ensures
            r == self->ByteArray_0,
    {
        match self {
            NBT::ByteArray(val) => val,
            _ => unreached(),
        }
    }

    /// Takes the payload out of a `String` value.
    pub fn into_string(self) -> (r: String)
        requires
            self.spec_tag() == Tag::String,
        ensures
            r == self->String_0,
    {
        match self {
            NBT::String(val) => val,
            _ => unreached(),
        }
    }

    /// Takes the payload out of a `List` value.
    pub fn into_list(self) -> (r: List)
        requires
            self.spec_tag() == Tag::List,
        ensures
            r == self->List_0,
    {
        match self {
            NBT::List(val) => val,
            _ => unreached(),
        }
    }

    /// Takes the payload out of a `Compound` value.
    pub fn into_compound(self) -> (r: Compound)
        requires
            self.spec_tag() == Tag::Compound,
        ensures
            r == self->Compound_0,
    {
        match self {
            NBT::Compound(val) => val,
            _ => unreached(),
        }
    }

    /// Takes the payload out of an `IntArray` value.
    pub fn into_int_array(self) -> (r: Vec<i32>)
        requires
            self.spec_tag() == Tag::IntArray,
        ensures
            r == self->IntArray_0,
    {
        match self {
            NBT::IntArray(val) => val,
            _ => unreached(),
        }
    }

    /// Takes the payload out of a `LongArray` value.
    pub fn into_long_array(self) -> (r: Vec<i64>)
        requires
            self.spec_tag() == Tag::LongArray,
        ensures
            r == self->LongArray_0,
    {
        match self {
            NBT::LongArray(val) => val,
            _ => unreached(),
        }
    }
}

impl From<i8> for NBT {
    /// Wraps the value as a `Byte` payload.
    fn from(value: i8) -> (r: NBT)
        ensures
            r == NBT::Byte(value),
    {
        NBT::Byte(value)
    }
}

impl vstd::std_specs::convert::FromSpecImpl<i8> for NBT {
    open spec fn obeys_from_spec() -> bool {
        true
    }

    open spec fn from_spec(value: i8) -> NBT {
        NBT::Byte(value)
    }
}

impl From<i16> for NBT {
    /// Wraps the value as a `Short` payload.
    fn from(value: i16) -> (r: NBT)
        ensures
            r == NBT::Short(value),
    {
        NBT::Short(value)
    }
}

impl vstd::std_specs::convert::FromSpecImpl<i16> for NBT {
    open spec fn obeys_from_spec() -> bool {
        true
    }

    open spec fn from_spec(value: i16) -> NBT {
        NBT::Short(value)
    }
}

impl From<i32> for NBT {
    /// Wraps the value as an `Int` payload.
    fn from(value: i32) -> (r: NBT)
        ensures
            r == NBT::Int(value),
    {
        NBT::Int(value)
    }
}

impl vstd::std_specs::convert::FromSpecImpl<i32> for NBT {
    open spec fn obeys_from_spec() -> bool {
        true
    }

    open spec fn from_spec(value: i32) -> NBT {
        NBT::Int(value)
    }
}

impl From<i64> for NBT {
    /// Wraps the value as a `Long` payload.
    fn from(value: i64) -> (r: NBT)
        ensures
            r == NBT::Long(value),
    {
        NBT::Long(value)
    }
}

impl vstd::std_specs::convert::FromSpecImpl<i64> for NBT {
    open spec fn obeys_from_spec() -> bool {
        true
    }

    open spec fn from_spec(value: i64) -> NBT {
        NBT::Long(value)
    }
}

impl From<F32Bits> for NBT {
    /// Wraps the value as a `Float` payload.
    fn from(value: F32Bits) -> (r: NBT)
        ensures
            r == NBT::Float(value),
    {
        NBT::Float(value)
    }
}

impl vstd::std_specs::convert::FromSpecImpl<F32Bits> for NBT {
    open spec fn obeys_from_spec() -> bool {
        true
    }

    open spec fn from_spec(value: F32Bits) -> NBT {
        NBT::Float(value)
    }
}

impl From<F64Bits> for NBT {
    /// Wraps the value as a `Double` payload.
    fn from(value: F64Bits) -> (r: NBT)
        ensures
            r == NBT::Double(value),
    {
        NBT::Double(value)
    }
}

impl vstd::std_specs::convert::FromSpecImpl<F64Bits> for NBT {
    open spec fn obeys_from_spec() -> bool {
        true
    }

    open spec fn from_spec(value: F64Bits) -> NBT {
        NBT::Double(value)
    }
}

impl From<Vec<i8>> for NBT {
    /// Wraps the value as a `ByteArray` payload.
    fn from(value: Vec<i8>) -> (r: NBT)
        ensures
            r == NBT::ByteArray(value),
    {
        NBT::ByteArray(value)
    }
}

impl vstd::std_specs::convert::FromSpecImpl<Vec<i8>> for NBT {
    open spec fn obeys_from_spec() -> bool {
        true
    }

    open spec fn from_spec(value: Vec<i8>) -> NBT {
        NBT::ByteArray(value)
    }
}

impl From<String> for NBT {
    /// Wraps the value as a `String` payload.
    fn from(value: String) -> (r: NBT)
        ensures
            r == NBT::String(value),
    {
        NBT::String(value)
    }
}

impl vstd::std_specs::convert::FromSpecImpl<String> for NBT {
    open spec fn obeys_from_spec() -> bool {
        true
    }

    open spec fn from_spec(value: String) -> NBT {
        NBT::String(value)
    }
}

impl From<List> for NBT {
    /// Wraps the value as a `List` payload.
    fn from(value: List) -> (r: NBT)
        ensures
            r == NBT::List(value),
    {
        NBT::List(value)
    }
}

impl vstd::std_specs::convert::FromSpecImpl<List> for NBT {
    open spec fn obeys_from_spec() -> bool {
        true
    }

    open spec fn from_spec(value: List) -> NBT {
        NBT::List(value)
    }
}

impl From<Compound> for NBT {
    /// Wraps the value as a `Compound` payload.
    fn from(value: Compound) -> (r: NBT)
        ensures
            r == NBT::Compound(value),
    {
        NBT::Compound(value)
    }
}

impl vstd::std_specs::convert::FromSpecImpl<Compound> for NBT {
    open spec fn obeys_from_spec() -> bool {
        true
    }

    open spec fn from_spec(value: Compound) -> NBT {
        NBT::Compound(value)
    }
}

impl From<Vec<i32>> for NBT {
    /// Wraps the value as an `IntArray` payload.
    fn from(value: Vec<i32>) -> (r: NBT)
        ensures
            r == NBT::IntArray(value),
    {
        NBT::IntArray(value)
    }
}

impl vstd::std_specs::convert::FromSpecImpl<Vec<i32>> for NBT {
    open spec fn obeys_from_spec() -> bool {
        true
    }

    open spec fn from_spec(value: Vec<i32>) -> NBT {
        NBT::IntArray(value)
    }
}

impl From<Vec<i64>> for NBT {
    /// Wraps the value as a `LongArray` payload.
    fn from(value: Vec<i64>) -> (r: NBT)
        ensures
            r == NBT::LongArray(value),
    {
        NBT::LongArray(value)
    }
}

impl vstd::std_specs::convert::FromSpecImpl<Vec<i64>> for NBT {
    open spec fn obeys_from_spec() -> bool {
        true
    }

    open spec fn from_spec(value: Vec<i64>) -> NBT {
        NBT::LongArray(value)
    }
}

/// Wrapping a native value gives a value tagged with its kind, and narrowing
/// it back through that kind's accessor gives the native value again.
pub proof fn wrap_then_narrow(
    b: i8,
    s: i16,
    i: i32,
    l: i64,
    f: F32Bits,
    d: F64Bits,
    ba: Vec<i8>,
    st: String,
    li: List,
    c: Compound,
    ia: Vec<i32>,
    la: Vec<i64>,
)
    ensures
        <NBT as FromSpec<i8>>::from_spec(b).spec_tag() == Tag::Byte,
        <NBT as FromSpec<i8>>::from_spec(b)->Byte_0 == b,
        <NBT as FromSpec<i16>>::from_spec(s).spec_tag() == Tag::Short,
        <NBT as FromSpec<i16>>::from_spec(s)->Short_0 == s,
        <NBT as FromSpec<i32>>::from_spec(i).spec_tag() == Tag::Int,
        <NBT as FromSpec<i32>>::from_spec(i)->Int_0 == i,
        <NBT as FromSpec<i64>>::from_spec(l).spec_tag() == Tag::Long,
        <NBT as FromSpec<i64>>::from_spec(l)->Long_0 == l,
        <NBT as FromSpec<F32Bits>>::from_spec(f).spec_tag() == Tag::Float,
        <NBT as FromSpec<F32Bits>>::from_spec(f)->Float_0 == f,
        <NBT as FromSpec<F64Bits>>::from_spec(d).spec_tag() == Tag::Double,
        <NBT as FromSpec<F64Bits>>::from_spec(d)->Double_0 == d,
        <NBT as FromSpec<Vec<i8>>>::from_spec(ba).spec_tag() == Tag::ByteArray,
        <NBT as FromSpec<Vec<i8>>>::from_spec(ba)->ByteArray_0 == ba,
        <NBT as FromSpec<String>>::from_spec(st).spec_tag() == Tag::String,
        <NBT as FromSpec<String>>::from_spec(st)->String_0 == st,
        <NBT as FromSpec<List>>::from_spec(li).spec_tag() == Tag::List,
        <NBT as FromSpec<List>>::from_spec(li)->List_0 == li,
        <NBT as FromSpec<Compound>>::from_spec(c).spec_tag() == Tag::Compound,
        <NBT as FromSpec<Compound>>::from_spec(c)->Compound_0 == c,
        <NBT as FromSpec<Vec<i32>>>::from_spec(ia).spec_tag() == Tag::IntArray,
        <NBT as FromSpec<Vec<i32>>>::from_spec(ia)->IntArray_0 == ia,
        <NBT as FromSpec<Vec<i64>>>::from_spec(la).spec_tag() == Tag::LongArray,
        <NBT as FromSpec<Vec<i64>>>::from_spec(la)->LongArray_0 == la,
{
}

} // verus!
