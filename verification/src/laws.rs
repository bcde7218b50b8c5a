//! What holds of every arena, stated over the abstract state that the
//! contracts of the operations speak of.

use crate::model::{total, zeros, ArenaView, RegionView, Step};
use vstd::prelude::*;

verus! {

/// Every operation keeps the offset within the capacity, and none but
/// `dealloc` changes the capacity.
pub proof fn law_operations_keep_arena_well_formed(
    s: ArenaView,
    size: nat,
    region: RegionView,
    data: Seq<u8>,
)
    requires
        s.wf(),
    ensures
        s.fits(size) ==> s.carve(size).wf() && s.carve(size).capacity() == s.capacity(),
        s.write(region, data).wf() && s.write(region, data).capacity() == s.capacity(),
        s.reset().wf() && s.reset().capacity() == s.capacity(),
        s.clear().wf() && s.clear().capacity() == s.capacity(),
        ArenaView::released().wf() && ArenaView::released().capacity() == 0,
{
}

/// A run of carves succeeds exactly when the sum of its sizes fits behind
/// the offset. It then advances the offset by that sum and changes no byte,
/// so that an arena rewound before the run has the sum of the carved sizes
/// in use after it.
pub proof fn law_carves_add_up(s: ArenaView, sizes: Seq<nat>)
    requires
        s.wf(),
    ensures
        s.carve_all(sizes) is Some <==> s.fits(total(sizes)),
        s.carve_all(sizes) matches Some(t) ==> {
            &&& t.offset == s.offset + total(sizes)
            &&& t.bytes == s.bytes
            &&& t.wf()
            &&& s.offset == 0 ==> t.offset == total(sizes)
        },
    decreases sizes.len(),
{
    if sizes.len() > 0 {
        law_carves_add_up(s, sizes.drop_last());
    }
}

/// A run of successful carves is the run of the steps that request them.
pub proof fn law_successful_carves_are_steps(s: ArenaView, sizes: Seq<nat>)
    requires
        s.carve_all(sizes) is Some,
    ensures
        s.carve_all(sizes) == Some(s.run(sizes.map_values(|size: nat| Step::Carve(size)))),
    decreases sizes.len(),
{
    let steps = sizes.map_values(|size: nat| Step::Carve(size));
    if sizes.len() > 0 {
        law_successful_carves_are_steps(s, sizes.drop_last());
        assert(steps.drop_last() =~= sizes.drop_last().map_values(|size: nat| Step::Carve(size)));
    }
}

/// Steps keep the arena well-formed and its capacity fixed, and they never
/// take the offset back.
pub proof fn law_steps_never_retreat(s: ArenaView, steps: Seq<Step>)
    requires
        s.wf(),
    ensures
        s.run(steps).wf(),
        s.run(steps).capacity() == s.capacity(),
        s.offset <= s.run(steps).offset,
    decreases steps.len(),
{
    if steps.len() > 0 {
        law_steps_never_retreat(s, steps.drop_last());
    }
}

/// Along any run of steps the number of bytes in use never decreases:
/// after `j` of the steps it is at most what it is after `k >= j` of them.
pub proof fn law_len_is_monotonic(s: ArenaView, steps: Seq<Step>, j: int, k: int)
    requires
        s.wf(),
        0 <= j <= k <= steps.len(),
    ensures
        s.run(steps.take(j)).offset <= s.run(steps.take(k)).offset,
{
    let rest = steps.subrange(j, k);
    lemma_run_splits(s, steps.take(j), rest);
    assert(steps.take(j) + rest =~= steps.take(k));
    law_steps_never_retreat(s, steps.take(j));
    law_steps_never_retreat(s.run(steps.take(j)), rest);
}

/// Running two sequences of steps one after the other is running their
/// concatenation.
proof fn lemma_run_splits(s: ArenaView, head: Seq<Step>, tail: Seq<Step>)
    ensures
        s.run(head + tail) == s.run(head).run(tail),
    decreases tail.len(),
{
    if tail.len() == 0 {
        assert(head + tail =~= head);
    } else {
        lemma_run_splits(s, head, tail.drop_last());
        assert((head + tail).drop_last() =~= head + tail.drop_last());
    }
}

/// Two views issued by successful carves, with no rewind between them,
/// lie inside the buffer and share no byte: the earlier one ends where the
/// later one starts, or before.
pub proof fn law_carved_regions_disjoint(s: ArenaView, first: nat, between: Seq<Step>, second: nat)
    requires
        s.wf(),
        s.fits(first),
        s.carve(first).run(between).fits(second),
    ensures
        ({
            let earlier = s.next_region(first);
            let later = s.carve(first).run(between).next_region(second);
            &&& earlier.end() <= later.start
            &&& earlier.disjoint(later)
            &&& earlier.within(s.capacity())
            &&& later.within(s.capacity())
        }),
{
    law_steps_never_retreat(s.carve(first), between);
}

/// A rewind changes no byte and is idempotent, and the carve that follows
/// it is issued the start of the buffer with whatever it held before the
/// rewind.
pub proof fn law_reset_keeps_bytes(s: ArenaView, size: nat)
    requires
        s.wf(),
        size <= s.capacity(),
    ensures
        s.reset().bytes == s.bytes,
        s.reset().reset() == s.reset(),
        s.reset().fits(size),
        s.reset().next_region(size) == (RegionView { start: 0, len: size }),
        s.reset().carve(size).read(s.reset().next_region(size)) == s.bytes.subrange(
            0,
            size as int,
        ),
{
}

/// What was stored through a view at the start of the buffer is observed
/// again through the view that a carve of the same size is issued right
/// after a rewind.
pub proof fn law_stale_read_after_reset(s: ArenaView, size: nat, data: Seq<u8>)
    requires
        s.wf(),
        s.offset == 0,
        s.fits(size),
        data.len() == size,
    ensures
        ({
            let view = s.next_region(size);
            let rewound = s.carve(size).write(view, data).reset();
            &&& rewound.fits(size)
            &&& rewound.next_region(size) == view
            &&& rewound.carve(size).read(view) == data
        }),
{
    let view = s.next_region(size);
    let rewound = s.carve(size).write(view, data).reset();
    assert(rewound.carve(size).read(view) =~= data);
}

/// Zeroing leaves the arena as construction with the same capacity does,
/// whatever it held before: nothing in use and every byte zero. Zeroing
/// twice is zeroing once.
pub proof fn law_clear_is_fresh(s: ArenaView)
    ensures
        s.clear() == ArenaView::fresh(s.capacity()),
        s.clear().capacity() == s.capacity(),
        s.clear().offset == 0,
        forall|i: int| 0 <= i < s.capacity() ==> s.clear().bytes[i] == 0u8,
        s.clear().clear() == s.clear(),
{
    assert(zeros(s.clear().capacity()) =~= zeros(s.capacity()));
}

/// Storing through a view changes the bytes it covers and no others, and
/// what was stored is what is read back.
pub proof fn law_write_then_read(s: ArenaView, region: RegionView, data: Seq<u8>)
    requires
        s.accepts(region, data),
    ensures
        s.write(region, data).read(region) == data,
        s.write(region, data).offset == s.offset,
        forall|i: int|
            0 <= i < s.capacity() && !region.contains(i) ==> s.write(region, data).bytes[i]
                == s.bytes[i],
{
    assert(s.write(region, data).read(region) =~= data);
}

/// Storing through one view leaves what a disjoint view reads unchanged.
pub proof fn law_disjoint_write_keeps_read(
    s: ArenaView,
    target: RegionView,
    data: Seq<u8>,
    other: RegionView,
)
    requires
        s.accepts(target, data),
        other.within(s.capacity()),
        target.disjoint(other),
    ensures
        s.write(target, data).read(other) == s.read(other),
{
    assert forall|i: int| 0 <= i < other.len implies s.write(target, data).read(other)[i]
        == s.read(other)[i] by {
        assert(other.contains(other.start + i));
        assert(!target.contains(other.start + i));
    }
    assert(s.write(target, data).read(other) =~= s.read(other));
}

} // verus!
