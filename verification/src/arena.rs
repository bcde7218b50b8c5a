use crate::error::ArenaError;
use crate::model::{zeros, ArenaView};
use crate::region::Region;
use vstd::layout::size_of;
use vstd::prelude::*;
use vstd::slice::slice_subrange;

verus! {

/// A fixed-capacity bump arena.
///
/// The arena owns one byte buffer whose length is the capacity, and an
/// offset that separates the bytes in use from the bytes still free.
#[derive(Debug)]
pub struct MemArena {
    buf: Vec<u8>,
    offset: usize,
}

impl View for MemArena {
    type V = ArenaView;

    closed spec fn view(&self) -> ArenaView {
        ArenaView { bytes: self.buf@, offset: self.offset as nat }
    }
}

impl MemArena {
    #[verifier::type_invariant]
    spec fn inv(self) -> bool {
        self.offset <= self.buf@.len()
    }

    /// Builds an arena of `capacity` bytes, every one of them zero, with
    /// nothing in use.
    ///
    /// Whether the host can provide the buffer is for the host to say, so
    /// `AllocationError` can come back for any capacity but zero. A capacity
    /// above `isize::MAX` is no valid size of an allocation and always fails.
    pub fn allocate(capacity: usize) -> (r: Result<MemArena, ArenaError>)
        ensures
            capacity == 0 ==> r is Ok,
            capacity > isize::MAX ==> r is Err,
            r matches Ok(arena) ==> arena@ == ArenaView::fresh(capacity as nat),
            r matches Err(e) ==> e == ArenaError::AllocationError,
    {
        let mut buf: Vec<u8> = Vec::new();
        let granted: bool = capacity == 0 || buf.try_reserve(capacity).is_ok();
        MemArena::from_reservation(buf, granted, capacity)
    }

    /// Finishes construction once the host has answered the request for
    /// `capacity` bytes of storage: `buf` is the vector the request was made
    /// on, `granted` the host's answer.
    ///
    /// The arena is built exactly when the request was granted and the
    /// capacity is a valid allocation size; what `buf` held before is
    /// discarded.
    pub fn from_reservation(buf: Vec<u8>, granted: bool, capacity: usize) -> (r: Result<
        MemArena,
        ArenaError,
    >)
        ensures
            r is Ok <==> granted && capacity <= isize::MAX,
            r matches Ok(arena) ==> arena@ == ArenaView::fresh(capacity as nat),
            r matches Err(e) ==> e == ArenaError::AllocationError,
    {
        if !granted || capacity > isize::MAX as usize {
            return Err(ArenaError::AllocationError);
        }
        let mut buf = buf;
        buf.clear();
        buf.resize(capacity, 0u8);
        assert(buf@ =~= zeros(capacity as nat));
        Ok(MemArena { buf, offset: 0 })
    }

    /// Claims the next `size` bytes, or reports that they do not fit.
    /// The test comes before any change: a carve that fails leaves the
    /// arena as it was.
    fn carve(&mut self, size: usize) -> (r: Result<Region, ArenaError>)
        ensures
            old(self)@.wf(),
            r is Ok <==> old(self)@.fits(size as nat),
            r matches Ok(region) ==> region@ == old(self)@.next_region(size as nat) && final(self)@
                == old(self)@.carve(size as nat),
            r matches Err(e) ==> e == ArenaError::OutOfMemory && final(self)@ == old(self)@,
    {
        proof {
            use_type_invariant(&*self);
        }
        if size > self.buf.len() - self.offset {
            return Err(ArenaError::OutOfMemory);
        }
        let region = Region::new(self.offset, size);
        self.offset = self.offset + size;
        Ok(region)
    }

    /// Carves room for one value of type `T`.
    ///
    /// On success the returned view covers the `size_of::<T>()` bytes that
    /// start at the old offset, and the offset has advanced past them. The
    /// bytes themselves are not touched: they are zero if nothing was stored
    /// there since construction or the last `clear`, and otherwise hold what
    /// was last written.
    ///
    /// No padding comes before the range. A view is a range of bytes, and a
    /// value goes in and out of it as bytes, so the range needs no alignment.
    ///
    /// Fails with `OutOfMemory`, changing nothing, exactly when the value
    /// does not fit in the capacity that remains.
    pub fn push<T>(&mut self) -> (r: Result<Region, ArenaError>)
        ensures
            old(self)@.wf(),
            final(self)@.wf(),
            r is Ok <==> old(self)@.fits(size_of::<T>()),
            r matches Ok(region) ==> region@ == old(self)@.next_region(size_of::<T>())
                && final(self)@ == old(self)@.carve(size_of::<T>()),
            r matches Err(e) ==> e == ArenaError::OutOfMemory && final(self)@ == old(self)@,
    {
        let size: usize = core::mem::size_of::<T>();
        self.carve(size)
    }

    /// Carves room for `count` values of type `T`, laid out back to back.
    ///
    /// The size is `size_of::<T>() * count`, taken as a mathematical
    /// product: a product too large for `usize` fits in no arena and is
    /// reported as `OutOfMemory` like any other carve that is too large.
    /// With `count == 0` the call succeeds, returns an empty view and
    /// leaves the offset where it was.
    pub fn push_array<T>(&mut self, count: usize) -> (r: Result<Region, ArenaError>)
        ensures
            old(self)@.wf(),
            final(self)@.wf(),
            r is Ok <==> old(self)@.fits(size_of::<T>() * count as nat),
            r matches Ok(region) ==> region@ == old(self)@.next_region(size_of::<T>() * count as nat)
                && final(self)@ == old(self)@.carve(size_of::<T>() * count as nat),
            r matches Err(e) ==> e == ArenaError::OutOfMemory && final(self)@ == old(self)@,
    {
        proof {
            use_type_invariant(&*self);
        }
        let size: usize = core::mem::size_of::<T>();
        match size.checked_mul(count) {
            Some(total) => self.carve(total),
            None => {
                assert(self@.capacity() == self.buf.len());
                Err(ArenaError::OutOfMemory)
            },
        }
    }

    /// Number of bytes in use since construction or the last rewind.
    pub fn len(&self) -> (len: usize)
        ensures
            len == self@.offset,
            self@.wf(),
    {
        proof {
            use_type_invariant(self);
        }
        self.offset
    }

    /// Total size of the buffer in bytes.
    pub fn capacity(&self) -> (capacity: usize)
        ensures
            capacity == self@.capacity(),
            self@.wf(),
    {
        proof {
            use_type_invariant(self);
        }
        self.buf.len()
    }

    /// Rewinds the offset to zero without touching the buffer. Views issued
    /// before the call keep their bytes, but later carves may claim the same
    /// bytes again.
    pub fn reset(&mut self)
        ensures
            final(self)@ == old(self)@.reset(),
            final(self)@.wf(),
    {
        self.offset = 0;
    }

    /// Sets every byte of the buffer to zero and rewinds the offset, which
    /// leaves the arena as construction with the same capacity would.
    pub fn clear(&mut self)
        ensures
            final(self)@ == old(self)@.clear(),
            final(self)@.wf(),
    {
        self.offset = 0;
        let mut buf: Vec<u8> = Vec::new();
        core::mem::swap(&mut buf, &mut self.buf);
        let capacity: usize = buf.len();
        buf.clear();
        buf.resize(capacity, 0u8);
        assert(buf@ =~= zeros(capacity as nat));
        self.buf = buf;
    }

    /// The bytes that `region` covers, or `None` where the range reaches
    /// past the end of the buffer.
    pub fn read(&self, region: &Region) -> (r: Option<&[u8]>)
        ensures
            r is Some <==> region@.within(self@.capacity()),
            r matches Some(bytes) ==> bytes@ == self@.read(region@),
    {
        let end: usize = region.end();
        if end <= self.buf.len() {
            Some(slice_subrange(self.buf.as_slice(), region.start(), end))
        } else {
            None
        }
    }

    /// Stores `data` in the bytes that `region` covers.
    ///
    /// The bytes are stored, and `true` is returned, exactly when the range
    /// lies inside the buffer and `data` has the range's length. Otherwise
    /// nothing changes. The offset is never affected.
    pub fn write(&mut self, region: &Region, data: &[u8]) -> (stored: bool)
        ensures
            old(self)@.wf(),
            final(self)@.wf(),
            stored <==> old(self)@.accepts(region@, data@),
            stored ==> final(self)@ == old(self)@.write(region@, data@),
            !stored ==> final(self)@ == old(self)@,
    {
        proof {
            use_type_invariant(&*self);
        }
        let start: usize = region.start();
        let end: usize = region.end();
        if end > self.buf.len() || data.len() != region.len() {
            return false;
        }
        let mut i: usize = 0;
        while i < data.len()
            invariant
                i <= data@.len(),
                start + data@.len() == end,
                end <= self.buf@.len(),
                self.offset == old(self).offset,
                self.offset <= self.buf@.len(),
                self.buf@.len() == old(self).buf@.len(),
                forall|k: int|
                    0 <= k < self.buf@.len() ==> self.buf@[k] == if start <= k < start + i {
                        data@[k - start]
                    } else {
                        old(self).buf@[k]
                    },
            decreases data@.len() - i,
        {
            self.buf[start + i] = data[i];
            i = i + 1;
        }
        assert(self@.bytes =~= old(self)@.write(region@, data@).bytes);
        true
    }

    /// Gives the buffer back. Capacity and offset are zero afterwards, and
    /// a second call changes nothing.
    pub fn dealloc(&mut self)
        ensures
            final(self)@ == ArenaView::released(),
            final(self)@.wf(),
    {
        self.offset = 0;
        self.buf = Vec::new();
    }
}

} // verus!
