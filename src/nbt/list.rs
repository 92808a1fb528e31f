use vstd::prelude::*;

use super::{Tag, NBT};

verus! {

/// Why a list refused a value.
#[derive(Debug, Clone, Copy, PartialEq, Eq, Structural)]
pub enum ListError {
    /// The value's tag differs from the list's element tag.
    TagMismatch,
    /// The position lies past the end of the list.
    IndexOutOfBounds,
}

/// A homogeneous, ordered sequence of tagged values that all carry the tag
/// the list was created with.
#[derive(Debug, PartialEq)]
pub struct List {
    tag: Tag,
    list: Vec<NBT>,
}

impl View for List {
    type V = Seq<NBT>;

    /// The elements, in order.
    closed spec fn view(&self) -> Seq<NBT> {
        self.list@
    }
}

impl List {
    /// The element tag fixed when the list was created.
    pub closed spec fn elem_tag(&self) -> Tag {
        self.tag
    }

    /// Every element carries the element tag.
    pub open spec fn wf(&self) -> bool {
        forall|i: int| 0 <= i < self@.len() ==> (#[trigger] self@[i]).spec_tag() == self.elem_tag()
    }

    /// Creates an empty list whose elements will carry `tag`.
    pub fn new(tag: Tag) -> (r: List)
        ensures
            r@ == Seq::<NBT>::empty(),
            r.elem_tag() == tag,
            r.wf(),
    {
        List { tag, list: Vec::new() }
    }

    /// Creates an empty list whose elements will carry `tag`, with room
    /// reserved for `cap` elements.
    pub fn with_capacity(tag: Tag, cap: usize) -> (r: List)
        ensures
            r@ == Seq::<NBT>::empty(),
            r.elem_tag() == tag,
            r.wf(),
    {
        List { tag, list: Vec::with_capacity(cap) }
    }

    /// Returns the element tag.
    pub fn tag(&self) -> (r: Tag)
        ensures
            r == self.elem_tag(),
    {
        self.tag
    }

    /// Returns the number of elements.
    pub fn len(&self) -> (r: usize)
        ensures
            r == self@.len(),
    {
        self.list.len()
    }

    /// Returns whether the list has no elements.
    pub fn is_empty(&self) -> (r: bool)
        ensures
            r == (self@.len() == 0),
    {
        self.list.len() == 0
    }

    /// The elements, in order.
    pub fn as_slice(&self) -> (r: &[NBT])
        ensures
            r@ == self@,
    {
        self.list.as_slice()
    }

    /// Borrows the element at `index`, or `None` past the end.
    pub fn get(&self, index: usize) -> (r: Option<&NBT>)
        ensures
            r is None <==> index >= self@.len(),
            r matches Some(e) ==> *e == self@[index as int],
    {
        if index < self.list.len() {
            Some(&self.list[index])
        } else {
            None
        }
    }

    /// Mutably borrows the element at `index`, or `None` past the end.
    /// Writing a value of another tag through the reference breaks `wf`.
    pub fn get_mut(&mut self, index: usize) -> (r: Option<&mut NBT>)
        ensures
            r is None <==> index >= old(self)@.len(),
            r is None ==> final(self)@ == old(self)@,
            r matches Some(e) ==> *e == old(self)@[index as int] && final(self)@ == old(
                self,
            )@.update(index as int, *final(e)),
            final(self).elem_tag() == old(self).elem_tag(),
    {
        if index < self.list.len() {
            Some(&mut self.list[index])
        } else {
            None
        }
    }

    /// Appends `nbt` when its tag is the element tag; otherwise leaves the
    /// list as it was and reports the mismatch.
    pub fn put(&mut self, nbt: NBT) -> (r: Result<(), ListError>)
        ensures
            final(self).elem_tag() == old(self).elem_tag(),
            nbt.spec_tag() == old(self).elem_tag() ==> r is Ok && final(self)@ == old(self)@.push(
                nbt,
            ),
            nbt.spec_tag() != old(self).elem_tag() ==> r == Err::<(), ListError>(
                ListError::TagMismatch,
            ) && final(self)@ == old(self)@,
            old(self).wf() ==> final(self).wf(),
    {
        if self.tag != nbt.tag() {
            return Err(ListError::TagMismatch);
        }
        self.list.push(nbt);
        Ok(())
    }

    /// Inserts `nbt` at `index`, shifting the later elements up by one, when
    /// its tag is the element tag and `index` is at most the length;
    /// otherwise leaves the list as it was and reports why. A tag mismatch
    /// is reported before a bad index.
    pub fn insert(&mut self, index: usize, nbt: NBT) -> (r: Result<(), ListError>)
        ensures
            final(self).elem_tag() == old(self).elem_tag(),
            nbt.spec_tag() != old(self).elem_tag() ==> r == Err::<(), ListError>(
                ListError::TagMismatch,
            ),
            nbt.spec_tag() == old(self).elem_tag() && index > old(self)@.len() ==> r == Err::<
                (),
                ListError,
            >(ListError::IndexOutOfBounds),
            nbt.spec_tag() == old(self).elem_tag() && index <= old(self)@.len() ==> r is Ok,
            r is Ok ==> final(self)@ == old(self)@.insert(index as int, nbt),
            r is Err ==> final(self)@ == old(self)@,
            old(self).wf() ==> final(self).wf(),
    {
        if self.tag != nbt.tag() {
            return Err(ListError::TagMismatch);
        }
        if index > self.list.len() {
            return Err(ListError::IndexOutOfBounds);
        }
        self.list.insert(index, nbt);
        proof {
            assert forall|i: int| 0 <= i < self@.len() && old(self).wf() implies (
            #[trigger] self@[i]).spec_tag() == self.elem_tag() by {
                if i > index {
                    assert(self@[i] == old(self)@[i - 1]);
                }
            }
        }
        Ok(())
    }
}

/// Inserting at the front puts the value at index 0 and moves each earlier
/// element up by one place.
pub proof fn insert_front_shifts(l: List, v: NBT)
    ensures
        l@.insert(0, v).len() == l@.len() + 1,
        l@.insert(0, v)[0] == v,
        forall|i: int| 0 <= i < l@.len() ==> #[trigger] l@.insert(0, v)[i + 1] == l@[i],
{
}

} // verus!
