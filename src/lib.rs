//! An in-memory model of Named Binary Tag trees: a closed set of tags, a tagged
//! union over twelve payload kinds, a keyed compound container and a
//! homogeneous list container, plus nominal integer wrappers that mark the
//! wire encoding a codec should use for a field.
pub mod binary;
pub mod nbt;

pub use binary::{u24, v32, v64, w32, w64};
pub use nbt::{Compound, F32Bits, F64Bits, List, ListError, Tag, NBT};
