use crate::model::RegionView;
use vstd::layout::size_of;
use vstd::prelude::*;

verus! {

/// A view into an arena: the position and extent of a carved byte range.
///
/// A `Region` is a plain handle. It borrows nothing from the arena that
/// issued it, so any number of them can be alive at once, and it stays
/// usable after the arena is rewound or zeroed: it then designates bytes
/// that later carves may claim again.
#[derive(Clone, Copy, Debug, PartialEq, Eq, Structural)]
pub struct Region {
    offset: usize,
    len: usize,
}

impl View for Region {
    type V = RegionView;

    closed spec fn view(&self) -> RegionView {
        RegionView { start: self.offset as nat, len: self.len as nat }
    }
}

impl Region {
    #[verifier::type_invariant]
    spec fn inv(self) -> bool {
        self.offset + self.len <= usize::MAX
    }

    /// The range of `len` bytes that starts at `offset`.
    pub(crate) fn new(offset: usize, len: usize) -> (region: Region)
        requires
            offset + len <= usize::MAX,
        ensures
            region@ == (RegionView { start: offset as nat, len: len as nat }),
    {
        Region { offset, len }
    }

    /// Position of the first byte.
    pub fn start(&self) -> (start: usize)
        ensures
            start == self@.start,
    {
        self.offset
    }

    /// Number of bytes covered.
    pub fn len(&self) -> (len: usize)
        ensures
            len == self@.len,
    {
        self.len
    }

    /// Whether the range covers no byte at all.
    pub fn is_empty(&self) -> (empty: bool)
        ensures
            empty <==> self@.len == 0,
    {
        self.len == 0
    }

    /// Position one past the last byte.
    pub fn end(&self) -> (end: usize)
        ensures
            end == self@.end(),
    {
        proof {
            use_type_invariant(self);
        }
        self.offset + self.len
    }

    /// The part of this range that starts `start` bytes in and covers `len`
    /// bytes, or `None` where that part would reach past the end.
    pub fn subregion(&self, start: usize, len: usize) -> (sub: Option<Region>)
        ensures
            sub is Some <==> start + len <= self@.len,
            sub matches Some(part) ==> part@ == self@.subregion(start as nat, len as nat),
    {
        proof {
            use_type_invariant(self);
        }
        if start <= self.len && len <= self.len - start {
            Some(Region { offset: self.offset + start, len })
        } else {
            None
        }
    }

    /// The part of an array view that holds the element at `index`, where
    /// each element has the size of a `T`; `None` where the view ends before
    /// the end of that element.
    pub fn element<T>(&self, index: usize) -> (slot: Option<Region>)
        ensures
            slot is Some <==> (index + 1) * size_of::<T>() <= self@.len,
            slot matches Some(part) ==> part@ == self@.subregion(
                index as nat * size_of::<T>(),
                size_of::<T>(),
            ),
    {
        proof {
            use_type_invariant(self);
        }
        let size: usize = core::mem::size_of::<T>();
        assert((index + 1) * size == index * size + size) by (nonlinear_arith);
        match index.checked_mul(size) {
            Some(start) => self.subregion(start, size),
            None => None,
        }
    }
}

} // verus!
