use vstd::prelude::*;

verus! {

/// A sequence of `n` zero bytes.
pub open spec fn zeros(n: nat) -> Seq<u8> {
    Seq::new(n, |i: int| 0u8)
}

/// The sum of a run of carve sizes.
pub open spec fn total(sizes: Seq<nat>) -> nat
    decreases sizes.len(),
{
    if sizes.len() == 0 {
        0
    } else {
        total(sizes.drop_last()) + sizes.last()
    }
}

/// The byte range a carved view covers: `len` bytes starting at `start`.
pub struct RegionView {
    pub start: nat,
    pub len: nat,
}

impl RegionView {
    /// One past the last position of the range.
    pub open spec fn end(self) -> nat {
        self.start + self.len
    }

    /// Whether byte position `pos` lies inside the range.
    pub open spec fn contains(self, pos: int) -> bool {
        self.start <= pos < self.end()
    }

    /// Whether the whole range lies inside a buffer of `capacity` bytes.
    pub open spec fn within(self, capacity: nat) -> bool {
        self.end() <= capacity
    }

    /// The part of the range that starts `start` bytes in and covers `len`
    /// bytes.
    pub open spec fn subregion(self, start: nat, len: nat) -> RegionView
        recommends
            start + len <= self.len,
    {
        RegionView { start: self.start + start, len }
    }

    /// Whether the two ranges have no byte position in common.
    pub open spec fn disjoint(self, other: RegionView) -> bool {
        forall|pos: int| !(self.contains(pos) && other.contains(pos))
    }
}

/// An operation that does not rewind an arena: what can happen between two
/// carves while the offset is not taken back.
pub enum Step {
    /// A request for this many bytes, as `push` and `push_array` make it.
    Carve(nat),
    /// A store of bytes through a view, as `write` makes it.
    Store(RegionView, Seq<u8>),
}

/// The abstract state of an arena: the buffer's bytes and the bump offset.
/// The capacity is the length of `bytes`.
pub struct ArenaView {
    pub bytes: Seq<u8>,
    pub offset: nat,
}

impl ArenaView {
    /// Total size of the buffer in bytes.
    pub open spec fn capacity(self) -> nat {
        self.bytes.len()
    }

    /// The offset never exceeds the capacity.
    pub open spec fn wf(self) -> bool {
        self.offset <= self.capacity()
    }

    /// A newly constructed arena: `capacity` zero bytes, nothing in use.
    pub open spec fn fresh(capacity: nat) -> ArenaView {
        ArenaView { bytes: zeros(capacity), offset: 0 }
    }

    /// An arena whose buffer has been given back.
    pub open spec fn released() -> ArenaView {
        ArenaView { bytes: Seq::empty(), offset: 0 }
    }

    /// Whether `size` more bytes fit behind the offset.
    pub open spec fn fits(self, size: nat) -> bool {
        self.offset + size <= self.capacity()
    }

    /// The range that a carve of `size` bytes claims.
    pub open spec fn next_region(self, size: nat) -> RegionView {
        RegionView { start: self.offset, len: size }
    }

    /// The state after a carve of `size` bytes: the offset advances, the
    /// bytes stay as they are.
    pub open spec fn carve(self, size: nat) -> ArenaView {
        ArenaView { bytes: self.bytes, offset: self.offset + size }
    }

    /// The state after carving each of `sizes` in turn, or `None` where one
    /// of the carves does not fit.
    pub open spec fn carve_all(self, sizes: Seq<nat>) -> Option<ArenaView>
        decreases sizes.len(),
    {
        if sizes.len() == 0 {
            Some(self)
        } else {
            match self.carve_all(sizes.drop_last()) {
                Some(before) => if before.fits(sizes.last()) {
                    Some(before.carve(sizes.last()))
                } else {
                    None
                },
                None => None,
            }
        }
    }

    /// The state that one step leaves. A carve that fits advances the
    /// offset and a store that is accepted replaces bytes; a carve that does
    /// not fit and a store that is not accepted change nothing.
    pub open spec fn step(self, step: Step) -> ArenaView {
        match step {
            Step::Carve(size) => if self.fits(size) {
                self.carve(size)
            } else {
                self
            },
            Step::Store(region, data) => if self.accepts(region, data) {
                self.write(region, data)
            } else {
                self
            },
        }
    }

    /// The state after each of `steps` in turn.
    pub open spec fn run(self, steps: Seq<Step>) -> ArenaView
        decreases steps.len(),
    {
        if steps.len() == 0 {
            self
        } else {
            self.run(steps.drop_last()).step(steps.last())
        }
    }

    /// The state after a rewind: offset zero, bytes untouched.
    pub open spec fn reset(self) -> ArenaView {
        ArenaView { bytes: self.bytes, offset: 0 }
    }

    /// The state after zeroing: offset zero, every byte zero, same capacity.
    pub open spec fn clear(self) -> ArenaView {
        ArenaView { bytes: zeros(self.capacity()), offset: 0 }
    }

    /// The bytes that `region` covers.
    pub open spec fn read(self, region: RegionView) -> Seq<u8>
        recommends
            region.within(self.capacity()),
    {
        self.bytes.subrange(region.start as int, region.end() as int)
    }

    /// Whether `data` can be stored through `region`: the range lies inside
    /// the buffer and `data` fills it exactly.
    pub open spec fn accepts(self, region: RegionView, data: Seq<u8>) -> bool {
        region.within(self.capacity()) && data.len() == region.len
    }

    /// The state after `data` is stored through `region`: the bytes of the
    /// range are those of `data`, every other byte keeps its value.
    pub open spec fn write(self, region: RegionView, data: Seq<u8>) -> ArenaView
        recommends
            self.accepts(region, data),
    {
        ArenaView {
            bytes: Seq::new(
                self.bytes.len(),
                |i: int|
                    if region.start <= i < region.start + data.len() {
                        data[i - region.start]
                    } else {
                        self.bytes[i]
                    },
            ),
            offset: self.offset,
        }
    }
}

} // verus!
