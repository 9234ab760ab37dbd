//! The clone-on-write container: a sequence of `i32` that is either a
//! borrowed view of an external buffer or an owned copy of one.

use vstd::prelude::*;
use vstd::slice::slice_index_get;
use vstd::slice::slice_to_vec;
use vstd::pervasive::unreached;

verus! {

/// Error returned by indexed access.
#[derive(Clone, Copy, Debug, PartialEq, Eq, Structural)]
pub enum CowError {
    /// The requested index is not below the container's length.
    OutOfRange,
}

/// A clone-on-write sequence of `i32`.
///
/// A value is in exactly one of two states: `Borrowed`, referencing an
/// externally owned immutable buffer, or `Owned`, holding a buffer of its
/// own. Reading never changes the state; only [`CowSequence::to_mut`] may
/// switch a `Borrowed` container to `Owned`, copying the whole buffer once.
/// The transition is one-directional: an `Owned` container never reverts.
pub enum CowSequence<'a> {
    /// A shared view of a buffer owned elsewhere, which must outlive the
    /// container.
    Borrowed(&'a [i32]),
    /// An exclusively owned buffer.
    Owned(Vec<i32>),
}

impl<'a> View for CowSequence<'a> {
    type V = Seq<i32>;

    open spec fn view(&self) -> Seq<i32> {
        match self {
            CowSequence::Borrowed(s) => s@,
            CowSequence::Owned(v) => v@,
        }
    }
}

impl<'a> CowSequence<'a> {
    /// Whether the container is in the `Owned` state.
    pub open spec fn owned(&self) -> bool {
        self is Owned
    }

    /// Constructs a `Borrowed` container over `source` without copying it.
    pub fn from_borrowed(source: &'a [i32]) -> (r: CowSequence<'a>)
        ensures
            r@ == source@,
            !r.owned(),
    {
        CowSequence::Borrowed(source)
    }

    /// Constructs an `Owned` container taking ownership of `buffer`
    /// without copying it.
    pub fn from_owned(buffer: Vec<i32>) -> (r: CowSequence<'a>)
        ensures
            r@ == buffer@,
            r.owned(),
    {
        CowSequence::Owned(buffer)
    }

    /// Returns the element count; valid in either state.
    pub fn len(&self) -> (n: usize)
        ensures
            n == self@.len(),
    {
        match self {
            CowSequence::Borrowed(s) => s.len(),
            CowSequence::Owned(v) => v.len(),
        }
    }

    /// Returns the element at `index` by value, or `OutOfRange` when
    /// `index` is not below the length. Never changes the state.
    pub fn get(&self, index: usize) -> (r: Result<i32, CowError>)
        ensures
            index < self@.len() ==> r == Ok::<i32, CowError>(self@[index as int]),
            index >= self@.len() ==> r == Err::<i32, CowError>(CowError::OutOfRange),
    {
        if index < self.len() {
            match self {
                CowSequence::Borrowed(s) => Ok(*slice_index_get(s, index)),
                CowSequence::Owned(v) => Ok(v[index]),
            }
        } else {
            Err(CowError::OutOfRange)
        }
    }

    /// Whether the container currently owns its buffer. Observability only:
    /// reading the state never changes it.
    pub fn is_owned(&self) -> (r: bool)
        ensures
            r == self.owned(),
    {
        match self {
            CowSequence::Borrowed(_) => false,
            CowSequence::Owned(_) => true,
        }
    }

    /// Whether the container is still borrowing an external buffer.
    pub fn is_borrowed(&self) -> (r: bool)
        ensures
            r == !self.owned(),
    {
        !self.is_owned()
    }

    /// Returns a mutable view of the contained buffer.
    ///
    /// On a `Borrowed` container this copies every element into a new owned
    /// buffer and switches the state to `Owned` — the single clone point,
    /// taken unconditionally on the first call whether or not the caller
    /// goes on to change anything. On an `Owned` container it allocates
    /// nothing and hands out the existing buffer.
    pub fn to_mut(&mut self) -> (m: &mut Vec<i32>)
        ensures
            (*m)@ == old(self)@,
            final(self).owned(),
            final(self)@ == (*final(m))@,
    {
        match self {
            CowSequence::Borrowed(s) => {
                let buffer = slice_to_vec(*s);
                *self = CowSequence::Owned(buffer);
            },
            CowSequence::Owned(_) => {},
        }
        match self {
            CowSequence::Owned(v) => v,
            CowSequence::Borrowed(_) => unreached(),
        }
    }
}

} // verus!
