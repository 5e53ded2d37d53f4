//! The cache of graph roots that must outlive their envelopes.
//!
//! MIOpen keeps the contents of an operation graph inside the graph
//! descriptor, and later objects refer to them by address.  Destroying a graph
//! when its envelope goes would leave those references dangling.  So graph
//! descriptors are parked here instead, and one is destroyed only when the
//! cache is full and a new graph arrives: first in, first out.

use crate::envelope::{BackendDescriptor, BackendDescriptorKind};
use std::collections::VecDeque;
use vstd::prelude::*;

verus! {

/// How many graph roots are kept.
pub const STICKY_DESCRIPTORS_CAPACITY: usize = 2;

/// The parked graph descriptors, oldest first.
pub struct StickyCache {
    entries: VecDeque<usize>,
}

impl View for StickyCache {
    type V = Seq<usize>;

    closed spec fn view(&self) -> Seq<usize> {
        self.entries@
    }
}

/// The cache after a descriptor has been parked in it.
pub open spec fn parked(cache: Seq<usize>, handle: usize) -> Seq<usize> {
    if cache.len() >= STICKY_DESCRIPTORS_CAPACITY {
        cache.drop_first().push(handle)
    } else {
        cache.push(handle)
    }
}

/// The descriptor that leaves the cache when another one is parked.
pub open spec fn evicted(cache: Seq<usize>) -> Option<usize> {
    if cache.len() >= STICKY_DESCRIPTORS_CAPACITY {
        Some(cache[0])
    } else {
        None
    }
}

/// Whether the descriptor inside an envelope may still be used: always,
/// unless it is a graph root that has left the cache.
pub open spec fn alive(descriptor: BackendDescriptor, cache: Seq<usize>) -> bool {
    descriptor.kind != BackendDescriptorKind::Sticky || cache.contains(descriptor.internal)
}

impl StickyCache {
    /// The empty cache.
    pub fn new() -> (cache: StickyCache)
        ensures
            cache@ == Seq::<usize>::empty(),
    {
        StickyCache { entries: VecDeque::new() }
    }

    /// How many descriptors are parked.
    pub fn len(&self) -> (count: usize)
        ensures
            count == self@.len(),
    {
        self.entries.len()
    }

    /// Parks a descriptor.  If the cache is full, the oldest entry leaves
    /// first and is returned: the caller has to destroy it.
    pub fn park(&mut self, handle: usize) -> (out: Option<usize>)
        ensures
            final(self)@ == parked(old(self)@, handle),
            out == evicted(old(self)@),
            old(self)@.len() <= STICKY_DESCRIPTORS_CAPACITY ==> final(self)@.len()
                <= STICKY_DESCRIPTORS_CAPACITY,
    {
        let mut out: Option<usize> = None;
        if self.entries.len() >= STICKY_DESCRIPTORS_CAPACITY {
            out = self.entries.pop_front();
        }
        self.entries.push_back(handle);
        out
    }

    /// Whether a descriptor is parked here.
    pub fn contains(&self, handle: usize) -> (found: bool)
        ensures
            found == self@.contains(handle),
    {
        let mut i: usize = 0;
        while i < self.entries.len()
            invariant
                i <= self.entries@.len(),
                forall|j: int| 0 <= j < i ==> self.entries@[j] != handle,
            decreases self.entries@.len() - i,
        {
            if self.entries[i] == handle {
                return true;
            }
            i += 1;
        }
        false
    }
}

/// Whether the descriptor inside an envelope may still be used.  The cache
/// is only searched for a graph root.
pub fn is_descriptor_alive(descriptor: &BackendDescriptor, cache: &StickyCache) -> (live: bool)
    ensures
        live == alive(*descriptor, cache@),
{
    if descriptor.kind != BackendDescriptorKind::Sticky {
        return true;
    }
    cache.contains(descriptor.internal)
}

/// The cache after a run of descriptors has been parked, one after another.
pub open spec fn parked_all(cache: Seq<usize>, handles: Seq<usize>) -> Seq<usize>
    decreases handles.len(),
{
    if handles.len() == 0 {
        cache
    } else {
        parked_all(parked(cache, handles[0]), handles.drop_first())
    }
}

/// What left the cache at each step while a run of descriptors was parked.
pub open spec fn evictions(cache: Seq<usize>, handles: Seq<usize>) -> Seq<Option<usize>>
    decreases handles.len(),
{
    if handles.len() == 0 {
        Seq::empty()
    } else {
        seq![evicted(cache)] + evictions(parked(cache, handles[0]), handles.drop_first())
    }
}

/// The newest entries of a run, as many as the cache holds.
pub open spec fn latest(handles: Seq<usize>) -> Seq<usize> {
    if handles.len() <= STICKY_DESCRIPTORS_CAPACITY {
        handles
    } else {
        handles.skip(handles.len() - STICKY_DESCRIPTORS_CAPACITY)
    }
}

proof fn lemma_latest_of_latest(older: Seq<usize>, newer: Seq<usize>)
    ensures
        latest(latest(older) + newer) == latest(older + newer),
{
    assert(latest(latest(older) + newer) =~= latest(older + newer));
}

/// The cache never holds more than its capacity, and it always holds the
/// descriptors parked last: whatever was parked, in whatever state the cache
/// was, the cache afterwards holds the newest entries of the old contents
/// followed by the new ones.
pub proof fn lemma_cache_holds_the_latest(cache: Seq<usize>, handles: Seq<usize>)
    requires
        cache.len() <= STICKY_DESCRIPTORS_CAPACITY,
    ensures
        parked_all(cache, handles) == latest(cache + handles),
        parked_all(cache, handles).len() <= STICKY_DESCRIPTORS_CAPACITY,
    decreases handles.len(),
{
    if handles.len() == 0 {
        assert(cache + handles =~= cache);
    } else {
        let next = parked(cache, handles[0]);
        assert(next =~= latest(cache.push(handles[0])));
        lemma_cache_holds_the_latest(next, handles.drop_first());
        lemma_latest_of_latest(cache.push(handles[0]), handles.drop_first());
        assert(cache.push(handles[0]) + handles.drop_first() =~= cache + handles);
    }
}

/// First in, first out.  Park one descriptor more than the cache holds, in a
/// cache that was within its capacity: the last of them pushes out the first,
/// the cache then holds exactly the others, and the first is no longer alive
/// unless it was parked again.  Until then only entries that were in the
/// cache before leave it, oldest first; from an empty cache, none.
pub proof fn lemma_first_in_first_out(cache: Seq<usize>, handles: Seq<usize>)
    requires
        cache.len() <= STICKY_DESCRIPTORS_CAPACITY,
        handles.len() == STICKY_DESCRIPTORS_CAPACITY + 1,
    ensures
        evictions(cache, handles).len() == handles.len(),
        evictions(cache, handles).last() == Some(handles[0]),
        parked_all(cache, handles) == handles.drop_first(),
        !handles.drop_first().contains(handles[0]) ==> !alive(
            BackendDescriptor::wrap(handles[0], BackendDescriptorKind::Sticky),
            parked_all(cache, handles),
        ),
        forall|i: int|
            0 <= i < STICKY_DESCRIPTORS_CAPACITY ==> #[trigger] evictions(cache, handles)[i] == (if cache.len()
                + i >= STICKY_DESCRIPTORS_CAPACITY {
                Some(cache[cache.len() + i - STICKY_DESCRIPTORS_CAPACITY])
            } else {
                None
            }),
{
    let first = handles[0];
    let second = handles[1];
    let third = handles[2];
    let rest1 = handles.drop_first();
    let rest2 = rest1.drop_first();
    let rest3 = rest2.drop_first();
    assert(rest1[0] == second && rest2[0] == third && rest3.len() == 0);
    let one = parked(cache, first);
    let two = parked(one, second);
    let three = parked(two, third);
    reveal_with_fuel(parked_all, 4);
    reveal_with_fuel(evictions, 4);
    assert(parked_all(cache, handles) == three);
    assert(two =~= seq![first, second]);
    assert(three =~= seq![second, third]);
    assert(three =~= rest1);
    let out = evictions(cache, handles);
    assert(out =~= seq![evicted(cache), evicted(one), evicted(two)]);
}

} // verus!
