//! Bookkeeping of descriptor heaps and query heaps: which descriptor slots are handed out,
//! which are free for reuse, and when the slots of dropped resources may be reused.

use vstd::prelude::*;

verus! {

/// Descriptor slots of a dropped resource, waiting until the GPU can no longer be using them.
pub struct DropResource {
    /// Frame the drop was first seen on by a cleanup, 0 until then.
    pub frame: usize,
    /// Slot indices of the views the resource had allocated in the heap.
    pub heap_allocs: Vec<usize>,
}

/// A dropped resource as plain values: (frame, slot indices).
pub open spec fn drop_view(d: DropResource) -> (usize, Seq<usize>) {
    (d.frame, d.heap_allocs@)
}

/// A dropped resource seen on frame `frame` may release its slots on frame `frame_index` once
/// more than `num_buffers` frames have passed since it was first seen.
pub open spec fn drop_ready(frame: usize, frame_index: usize, num_buffers: usize) -> bool {
    frame != 0 && frame_index - frame > num_buffers
}

/// Slots released by a cleanup on frame `frame_index` from `drops`, in list order.
pub open spec fn released_slots(drops: Seq<(usize, Seq<usize>)>, frame_index: usize, num_buffers: usize) -> Seq<usize>
    decreases drops.len(),
{
    if drops.len() == 0 {
        Seq::empty()
    } else {
        let last: (usize, Seq<usize>) = drops.last();
        released_slots(drops.drop_last(), frame_index, num_buffers)
            + if drop_ready(last.0, frame_index, num_buffers) { last.1 } else { Seq::empty() }
    }
}

/// Dropped resources still waiting after a cleanup on frame `frame_index`, in list order, with
/// the ones seen for the first time stamped with `frame_index`.
pub open spec fn waiting_drops(drops: Seq<(usize, Seq<usize>)>, frame_index: usize, num_buffers: usize) -> Seq<(usize, Seq<usize>)>
    decreases drops.len(),
{
    if drops.len() == 0 {
        Seq::empty()
    } else {
        let last: (usize, Seq<usize>) = drops.last();
        waiting_drops(drops.drop_last(), frame_index, num_buffers)
            + if drop_ready(last.0, frame_index, num_buffers) {
                Seq::empty()
            } else {
                seq![(if last.0 == 0 { frame_index } else { last.0 }, last.1)]
            }
    }
}

/// Every slot of `slots` has a representable address in a heap at `base` with slots `inc` apart.
pub open spec fn slots_fit(base: usize, inc: usize, slots: Seq<usize>) -> bool {
    forall|i: int| 0 <= i < slots.len() ==> base + inc * #[trigger] slots[i] <= usize::MAX
}

/// What `Heap::allocate` does to a heap at `base` with slots `inc` apart, next untouched byte
/// offset `offset` and free list `free`: (address handed out, next offset, next free list).
/// The most recently freed slot is reused first; with no free slot the next untouched slot is
/// handed out.
pub open spec fn allocate_step(base: usize, inc: usize, offset: usize, free: Seq<usize>) -> (int, int, Seq<usize>) {
    if free.len() > 0 {
        (base + inc * free.last(), offset as int, free.drop_last())
    } else {
        (base + offset, offset + inc, free)
    }
}

/// A slot that is freed is the next slot handed out, at its own address, and handing it out
/// leaves the heap's offset and free list as they were before it was freed.
pub proof fn lemma_deallocate_then_allocate(base: usize, inc: usize, offset: usize, free: Seq<usize>, index: usize)
    ensures
        allocate_step(base, inc, offset, free.push(index)) == (base + inc * index, offset as int, free),
{
    assert(free.push(index).drop_last() =~= free);
}

/// With no free slots, successive allocations hand out consecutive slots at strictly increasing
/// addresses, `inc` bytes apart.
pub proof fn lemma_fresh_allocations_advance(base: usize, inc: usize, offset: usize)
    requires
        inc > 0,
    ensures
        ({
            let first: (int, int, Seq<usize>) = allocate_step(base, inc, offset, Seq::empty());
            &&& first.1 == offset + inc
            &&& first.2 == Seq::<usize>::empty()
            &&& first.0 + inc == base + first.1
            &&& first.0 < base + first.1
        }),
{
}

/// The slot index `get_handle_index` recovers from the address of slot `index` is `index`.
pub proof fn lemma_handle_index_of_slot_address(base: usize, inc: usize, index: usize)
    requires
        inc > 0,
    ensures
        ((base + inc * index) - base) / inc as int == index,
{
    assert((inc * index) / inc as int == index as int) by (nonlinear_arith)
        requires inc > 0;
}

/// What handing out one slot does to a heap whose slots are `inc` bytes apart, in the state
/// (next untouched byte offset `offset`, free list `free`): (index of the slot handed out, next
/// offset, next free list). It is `allocate_step` seen through `get_handle_index`.
pub open spec fn slot_step(inc: usize, offset: usize, free: Seq<usize>) -> (usize, usize, Seq<usize>) {
    if free.len() > 0 {
        (free.last(), offset, free.drop_last())
    } else {
        ((offset / inc) as usize, (offset + inc) as usize, free)
    }
}

/// Slot indices handed out by `count` successive allocations from the state (`offset`, `free`),
/// in the order they are handed out, with the state they leave.
pub open spec fn slot_run(inc: usize, offset: usize, free: Seq<usize>, count: nat) -> (Seq<usize>, usize, Seq<usize>)
    decreases count,
{
    if count == 0 {
        (Seq::empty(), offset, free)
    } else {
        let before: (Seq<usize>, usize, Seq<usize>) = slot_run(inc, offset, free, (count - 1) as nat);
        let step: (usize, usize, Seq<usize>) = slot_step(inc, before.1, before.2);
        (before.0.push(step.0), step.1, step.2)
    }
}

/// A new heap hands out its slots in order: with nothing freed, allocation number `k + 1` on a
/// heap of `num_descriptors` slots gets slot index `k + 1`, for every allocation up to
/// `num_descriptors` (slot 0 stays reserved as null), so no two allocations share a slot.
pub proof fn lemma_new_heap_hands_out_slots_in_order(increment_size: usize, num_descriptors: usize, count: nat)
    requires
        increment_size > 0,
        (num_descriptors + 1) * increment_size <= usize::MAX,
        count <= num_descriptors,
    ensures
        ({
            let run: (Seq<usize>, usize, Seq<usize>) = slot_run(increment_size, increment_size, Seq::empty(), count);
            &&& run.0.len() == count
            &&& forall|k: int| 0 <= k < count ==> #[trigger] run.0[k] == k + 1
            &&& run.1 == (count + 1) * increment_size
            &&& run.2 == Seq::<usize>::empty()
        }),
    decreases count,
{
    if count > 0 {
        let c: int = count as int;
        let n: int = increment_size as int;
        let total: int = num_descriptors as int + 1;
        lemma_new_heap_hands_out_slots_in_order(increment_size, num_descriptors, (count - 1) as nat);
        let before: (Seq<usize>, usize, Seq<usize>) =
            slot_run(increment_size, increment_size, Seq::empty(), (count - 1) as nat);
        assert(before.1 == c * n);
        assert((c * n) / n == c && c * n + n == (c + 1) * n && (c + 1) * n <= total * n) by (nonlinear_arith)
            requires n > 0, c + 1 <= total;
        let run: (Seq<usize>, usize, Seq<usize>) = slot_run(increment_size, increment_size, Seq::empty(), count);
        assert(before.2.len() == 0);
        assert(slot_step(increment_size, before.1, before.2) == (c as usize, ((c + 1) * n) as usize, before.2));
        assert(run.1 == (c + 1) * n);
        assert forall|k: int| 0 <= k < count implies #[trigger] run.0[k] == k + 1 by {
            if k < count - 1 {
                assert(run.0[k] == before.0[k]);
            }
        }
    } else {
        assert((count + 1) * increment_size == increment_size) by (nonlinear_arith)
            requires count == 0;
    }
}

/// Freed slots are reused, the most recently freed first, before any untouched slot: after
/// slot `i` and then slot `j` are freed, the next two allocations get `j` and then `i`, and leave
/// the offset and the free list as they were before the two frees.
pub proof fn lemma_freed_slots_reused_last_first(inc: usize, offset: usize, free: Seq<usize>, i: usize, j: usize)
    ensures
        slot_run(inc, offset, free.push(i).push(j), 2) == (seq![j, i], offset, free),
{
    let freed: Seq<usize> = free.push(i).push(j);
    assert(freed.drop_last() =~= free.push(i));
    assert(free.push(i).drop_last() =~= free);
    assert(slot_run(inc, offset, freed, 0).0 =~= Seq::<usize>::empty());
    assert(slot_run(inc, offset, freed, 1) == (seq![j], offset, free.push(i))) by {
        assert(Seq::<usize>::empty().push(j) =~= seq![j]);
    }
    assert(seq![j].push(i) =~= seq![j, i]);
}

/// Stepping from one multiple `o` of `n` below the multiple `c` gives a multiple of `n` no
/// larger than `c`.
proof fn lemma_next_multiple(o: int, n: int, c: int)
    requires
        n > 0,
        o >= 0,
        o % n == 0,
        c % n == 0,
        o < c,
    ensures
        (o + n) % n == 0,
        o + n <= c,
{
    let a: int = o / n;
    let b: int = c / n;
    assert(o == n * a) by (nonlinear_arith)
        requires n > 0, o % n == 0, a == o / n;
    assert(c == n * b) by (nonlinear_arith)
        requires n > 0, c % n == 0, b == c / n;
    assert(a < b) by (nonlinear_arith)
        requires n > 0, o == n * a, c == n * b, o < c;
    assert(o + n == n * (a + 1)) by (nonlinear_arith)
        requires o == n * a;
    assert(n * (a + 1) <= n * b) by (nonlinear_arith)
        requires n > 0, a + 1 <= b;
    assert((n * (a + 1)) % n == 0) by (nonlinear_arith)
        requires n > 0;
}

/// Every slot index held by `drops`, in list order.
pub open spec fn drop_slots(drops: Seq<(usize, Seq<usize>)>) -> Seq<usize>
    decreases drops.len(),
{
    if drops.len() == 0 {
        Seq::empty()
    } else {
        drop_slots(drops.drop_last()) + drops.last().1
    }
}

/// A cleanup neither loses nor duplicates slots: the slots it releases together with the slots
/// of the drops still waiting are exactly the slots of the drops it started with.
pub proof fn lemma_cleanup_conserves_slots(drops: Seq<(usize, Seq<usize>)>, frame_index: usize, num_buffers: usize)
    ensures
        released_slots(drops, frame_index, num_buffers).to_multiset().add(
            drop_slots(waiting_drops(drops, frame_index, num_buffers)).to_multiset())
            == drop_slots(drops).to_multiset(),
    decreases drops.len(),
{
    broadcast use vstd::seq_lib::lemma_multiset_commutative;
    broadcast use vstd::multiset::group_multiset_axioms;
    if drops.len() > 0 {
        let rest: Seq<(usize, Seq<usize>)> = drops.drop_last();
        let last: (usize, Seq<usize>) = drops.last();
        lemma_cleanup_conserves_slots(rest, frame_index, num_buffers);
        let w: Seq<(usize, Seq<usize>)> = waiting_drops(rest, frame_index, num_buffers);
        let r: Seq<usize> = released_slots(rest, frame_index, num_buffers);
        let ws: Seq<usize> = drop_slots(w);
        let d: Seq<usize> = drop_slots(rest);
        assert(drop_slots(drops) == d + last.1);
        assert((d + last.1).to_multiset() =~= d.to_multiset().add(last.1.to_multiset()));
        if !drop_ready(last.0, frame_index, num_buffers) {
            let entry: (usize, Seq<usize>) = (if last.0 == 0 { frame_index } else { last.0 }, last.1);
            let w2: Seq<(usize, Seq<usize>)> = w + seq![entry];
            assert(waiting_drops(drops, frame_index, num_buffers) == w2);
            assert(w2.drop_last() =~= w);
            assert(w2.last() == entry);
            assert(drop_slots(w2) == ws + last.1);
            assert(released_slots(drops, frame_index, num_buffers) =~= r);
            assert((ws + last.1).to_multiset() =~= ws.to_multiset().add(last.1.to_multiset()));
            assert(r.to_multiset().add(ws.to_multiset().add(last.1.to_multiset()))
                =~= r.to_multiset().add(ws.to_multiset()).add(last.1.to_multiset()));
        } else {
            assert(waiting_drops(drops, frame_index, num_buffers) =~= w);
            assert(released_slots(drops, frame_index, num_buffers) =~= r + last.1);
            assert((r + last.1).to_multiset() =~= r.to_multiset().add(last.1.to_multiset()));
            assert(r.to_multiset().add(last.1.to_multiset()).add(ws.to_multiset())
                =~= r.to_multiset().add(ws.to_multiset()).add(last.1.to_multiset()));
        }
    } else {
        let e: Seq<usize> = Seq::empty();
        assert(released_slots(drops, frame_index, num_buffers) == e);
        assert(drop_slots(waiting_drops(drops, frame_index, num_buffers)) == e);
        assert(drop_slots(drops) == e);
        broadcast use vstd::seq_lib::group_to_multiset_ensures;
        assert(e.to_multiset() =~= vstd::multiset::Multiset::<usize>::empty());
        assert(e.to_multiset().add(e.to_multiset()) =~= e.to_multiset());
    }
}

/// A drop is never released by the cleanup that first sees it: drops not yet stamped with a
/// frame release nothing.
pub proof fn lemma_unstamped_drops_wait(drops: Seq<(usize, Seq<usize>)>, frame_index: usize, num_buffers: usize)
    requires
        forall|i: int| 0 <= i < drops.len() ==> (#[trigger] drops[i]).0 == 0,
    ensures
        released_slots(drops, frame_index, num_buffers) == Seq::<usize>::empty(),
        waiting_drops(drops, frame_index, num_buffers).len() == drops.len(),
    decreases drops.len(),
{
    if drops.len() > 0 {
        let rest: Seq<(usize, Seq<usize>)> = drops.drop_last();
        assert forall|i: int| 0 <= i < rest.len() implies (#[trigger] rest[i]).0 == 0 by {
            assert(rest[i] == drops[i]);
        }
        lemma_unstamped_drops_wait(rest, frame_index, num_buffers);
        assert(drops[drops.len() - 1].0 == 0);
        assert(released_slots(drops, frame_index, num_buffers) =~= Seq::<usize>::empty());
    }
}

/// A descriptor heap: a run of `capacity / increment_size` descriptor slots starting at
/// `base_address`, of which slot 0 is reserved as null. Slots are handed out from the free list
/// first (last freed first) and otherwise from the untouched end of the heap.
pub struct Heap {
    base_address: usize,
    increment_size: usize,
    capacity: usize,
    offset: usize,
    free_list: Vec<usize>,
    drop_list: Vec<DropResource>,
    id: u16,
}

impl Heap {
    /// Address of descriptor slot 0.
    pub closed spec fn base_address(&self) -> usize {
        self.base_address
    }

    /// Bytes between consecutive descriptor slots.
    pub closed spec fn increment_size(&self) -> usize {
        self.increment_size
    }

    /// Bytes spanned by all slots of the heap.
    pub closed spec fn capacity(&self) -> usize {
        self.capacity
    }

    /// Byte offset of the first slot never handed out.
    pub closed spec fn offset(&self) -> usize {
        self.offset
    }

    /// Freed slot indices, the last one is reused first.
    pub closed spec fn free_slots(&self) -> Seq<usize> {
        self.free_list@
    }

    /// Dropped resources whose slots are not yet free, as plain values.
    pub closed spec fn drops(&self) -> Seq<(usize, Seq<usize>)> {
        self.drop_list@.map_values(|d: DropResource| drop_view(d))
    }

    /// Identifier of the heap.
    pub closed spec fn heap_id(&self) -> u16 {
        self.id
    }

    /// The address of slot `index` is representable.
    pub open spec fn slot_fits(&self, index: usize) -> bool {
        self.base_address() + self.increment_size() * index <= usize::MAX
    }

    /// Address of slot `index`.
    pub open spec fn slot_address(&self, index: usize) -> int {
        self.base_address() + self.increment_size() * index
    }

    /// Slots that can still be handed out: the freed ones and the untouched ones.
    pub open spec fn available(&self) -> int {
        self.free_slots().len() + (self.capacity() - self.offset()) / (self.increment_size() as int)
    }

    /// `self` and `other` differ at most in which slots are handed out and which are free.
    pub open spec fn same_layout(&self, other: &Heap) -> bool {
        &&& self.base_address() == other.base_address()
        &&& self.increment_size() == other.increment_size()
        &&& self.capacity() == other.capacity()
        &&& self.drops() == other.drops()
        &&& self.heap_id() == other.heap_id()
    }

    /// Slots are evenly spaced, the untouched part lies within the heap and every slot that can
    /// be handed out again has a representable address.
    pub closed spec fn wf(&self) -> bool {
        &&& self.increment_size > 0
        &&& self.increment_size <= self.offset <= self.capacity
        &&& self.offset % self.increment_size == 0
        &&& self.capacity % self.increment_size == 0
        &&& self.base_address + self.capacity <= usize::MAX
        &&& slots_fit(self.base_address, self.increment_size, self.free_list@)
        &&& forall|i: int| 0 <= i < self.drop_list@.len()
            ==> slots_fit(self.base_address, self.increment_size, #[trigger] self.drop_list@[i].heap_allocs@)
    }

    /// Creates the bookkeeping of a heap of `num_descriptors` usable slots, `increment_size`
    /// bytes apart, starting at `base_address`; slot 0 is reserved as null.
    pub fn new(base_address: usize, increment_size: usize, num_descriptors: usize, id: u16) -> (heap: Heap)
        requires
            increment_size > 0,
            base_address + (num_descriptors + 1) * increment_size <= usize::MAX,
        ensures
            heap.wf(),
            heap.base_address() == base_address,
            heap.increment_size() == increment_size,
            heap.capacity() == (num_descriptors + 1) * increment_size,
            heap.offset() == increment_size,
            heap.free_slots() == Seq::<usize>::empty(),
            heap.drops() == Seq::<(usize, Seq<usize>)>::empty(),
            heap.heap_id() == id,
    {
        proof {
            let k: int = num_descriptors as int + 1;
            let n: int = increment_size as int;
            assert(k * n >= n) by (nonlinear_arith)
                requires n > 0, k >= 1;
            assert(k * n >= k) by (nonlinear_arith)
                requires n > 0, k >= 1;
            assert((k * n) % n == 0) by (nonlinear_arith)
                requires n > 0;
            assert(n % n == 0) by (nonlinear_arith)
                requires n > 0;
        }
        let num: usize = num_descriptors + 1;
        let heap: Heap = Heap {
            base_address,
            increment_size,
            capacity: num * increment_size,
            offset: increment_size,
            free_list: Vec::new(),
            drop_list: Vec::new(),
            id,
        };
        assert(heap.drops() =~= Seq::<(usize, Seq<usize>)>::empty());
        heap
    }

    /// Hands out a descriptor slot and returns its address: the most recently freed slot if any,
    /// otherwise the next slot never handed out. A full heap with no free slot panics, so it is
    /// excluded.
    pub fn allocate(&mut self) -> (address: usize)
        requires
            old(self).wf(),
            old(self).free_slots().len() > 0 || old(self).offset() < old(self).capacity(),
        ensures
            final(self).wf(),
            final(self).base_address() == old(self).base_address(),
            final(self).increment_size() == old(self).increment_size(),
            final(self).capacity() == old(self).capacity(),
            final(self).drops() == old(self).drops(),
            final(self).heap_id() == old(self).heap_id(),
            (address as int, final(self).offset() as int, final(self).free_slots())
                == allocate_step(old(self).base_address(), old(self).increment_size(), old(self).offset(), old(self).free_slots()),
    {
        if self.free_list.len() == 0 {
            let address: usize = self.base_address + self.offset;
            proof {
                lemma_next_multiple(self.offset as int, self.increment_size as int, self.capacity as int);
            }
            self.offset = self.offset + self.increment_size;
            address
        } else {
            let ghost before: Seq<usize> = self.free_list@;
            let index: usize = self.free_list.pop().unwrap();
            assert(self.base_address + self.increment_size * before[before.len() - 1] <= usize::MAX);
            assert(self.free_list@ =~= before.drop_last());
            self.base_address + self.increment_size * index
        }
    }

    /// Hands out a descriptor slot as `allocate` does and returns its index, as
    /// `get_handle_index` recovers it from the slot's address.
    pub fn allocate_slot(&mut self) -> (index: usize)
        requires
            old(self).wf(),
            old(self).available() >= 1,
        ensures
            final(self).wf(),
            final(self).same_layout(&*old(self)),
            (index, final(self).offset(), final(self).free_slots())
                == slot_step(old(self).increment_size(), old(self).offset(), old(self).free_slots()),
            final(self).available() == old(self).available() - 1,
    {
        let ghost inc: int = self.increment_size as int;
        let ghost left: int = self.capacity as int - self.offset as int;
        proof {
            if self.free_list@.len() == 0 && left == 0 {
                vstd::arithmetic::div_mod::lemma_basic_div(0, inc);
            }
            vstd::arithmetic::div_mod::lemma_div_minus_one(left, inc);
        }
        let address: usize = self.allocate();
        let index: usize = self.get_handle_index(address);
        proof {
            if old(self).free_list@.len() > 0 {
                lemma_handle_index_of_slot_address(self.base_address, self.increment_size,
                    old(self).free_list@.last());
            }
        }
        index
    }

    /// Returns a slot to the free list, it is the next slot `allocate` hands out.
    pub fn deallocate(&mut self, index: usize)
        requires
            old(self).wf(),
            old(self).slot_fits(index),
        ensures
            final(self).wf(),
            final(self).free_slots() == old(self).free_slots().push(index),
            final(self).base_address() == old(self).base_address(),
            final(self).increment_size() == old(self).increment_size(),
            final(self).capacity() == old(self).capacity(),
            final(self).offset() == old(self).offset(),
            final(self).drops() == old(self).drops(),
            final(self).heap_id() == old(self).heap_id(),
    {
        let ghost before: Seq<usize> = self.free_list@;
        self.free_list.push(index);
        assert forall|i: int| 0 <= i < self.free_list@.len() implies
            self.base_address + self.increment_size * #[trigger] self.free_list@[i] <= usize::MAX by {
            if i < before.len() {
                assert(self.free_list@[i] == before[i]);
            }
        }
    }

    /// Slot index of the descriptor at address `handle`.
    pub fn get_handle_index(&self, handle: usize) -> (index: usize)
        requires
            self.wf(),
            handle >= self.base_address(),
        ensures
            index == (handle - self.base_address()) / self.increment_size() as int,
    {
        let ptr: usize = handle - self.base_address;
        ptr / self.increment_size
    }

    /// Returns the id of the heap to verify and correlate with resources
    pub fn get_heap_id(&self) -> (id: u16)
        ensures
            id == self.heap_id(),
    {
        self.id
    }

    /// Records the slots of a dropped resource; they return to the free list only once the GPU
    /// can no longer be using them (see `cleanup_dropped_resources`).
    pub fn push_drop(&mut self, heap_allocs: Vec<usize>)
        requires
            old(self).wf(),
            slots_fit(old(self).base_address(), old(self).increment_size(), heap_allocs@),
        ensures
            final(self).wf(),
            final(self).drops() == old(self).drops().push((0usize, heap_allocs@)),
            final(self).free_slots() == old(self).free_slots(),
            final(self).base_address() == old(self).base_address(),
            final(self).increment_size() == old(self).increment_size(),
            final(self).capacity() == old(self).capacity(),
            final(self).offset() == old(self).offset(),
            final(self).heap_id() == old(self).heap_id(),
    {
        let ghost before: Seq<DropResource> = self.drop_list@;
        self.drop_list.push(DropResource { frame: 0, heap_allocs });
        assert(self.drop_list@.map_values(|d: DropResource| drop_view(d))
            =~= before.map_values(|d: DropResource| drop_view(d)).push((0usize, heap_allocs@)));
        assert forall|i: int| 0 <= i < self.drop_list@.len() implies
            slots_fit(self.base_address, self.increment_size, #[trigger] self.drop_list@[i].heap_allocs@) by {
            if i < before.len() {
                assert(self.drop_list@[i] == before[i]);
            }
        }
    }

    /// Cleans up resources which have been dropped, on frame `frame_index` of a swap chain with
    /// `num_buffers` buffers: a drop seen for the first time is stamped with the frame, and the
    /// slots of a drop seen more than `num_buffers` frames ago are pushed onto the free list, in
    /// order, and the drop is forgotten. The frame difference underflows (and panics) for a drop
    /// stamped after `frame_index`, so that is excluded.
    pub fn cleanup_dropped_resources(&mut self, frame_index: usize, num_buffers: usize)
        requires
            old(self).wf(),
            forall|i: int| 0 <= i < old(self).drops().len() ==> (#[trigger] old(self).drops()[i]).0 <= frame_index,
        ensures
            final(self).wf(),
            final(self).free_slots() == old(self).free_slots() + released_slots(old(self).drops(), frame_index, num_buffers),
            final(self).drops() == waiting_drops(old(self).drops(), frame_index, num_buffers),
            final(self).base_address() == old(self).base_address(),
            final(self).increment_size() == old(self).increment_size(),
            final(self).capacity() == old(self).capacity(),
            final(self).offset() == old(self).offset(),
            final(self).heap_id() == old(self).heap_id(),
    {
        let mut pending: Vec<DropResource> = Vec::new();
        std::mem::swap(&mut pending, &mut self.drop_list);
        let ghost orig: Seq<(usize, Seq<usize>)> = pending@.map_values(|d: DropResource| drop_view(d));
        let ghost orig_entries: Seq<DropResource> = pending@;
        let ghost free0: Seq<usize> = self.free_list@;
        assert(orig =~= old(self).drops());
        let n: usize = pending.len();
        let mut k: usize = 0;
        assert(orig.subrange(0, 0) =~= Seq::<(usize, Seq<usize>)>::empty());
        assert(self.drop_list@.map_values(|d: DropResource| drop_view(d)) =~= Seq::<(usize, Seq<usize>)>::empty());
        assert(self.free_list@ =~= free0 + Seq::<usize>::empty());
        while k < n
            invariant
                k <= n,
                n == orig.len(),
                orig == orig_entries.map_values(|d: DropResource| drop_view(d)),
                pending@ == orig_entries.subrange(k as int, n as int),
                self.free_list@ == free0 + released_slots(orig.subrange(0, k as int), frame_index, num_buffers),
                self.drop_list@.map_values(|d: DropResource| drop_view(d)) == waiting_drops(orig.subrange(0, k as int), frame_index, num_buffers),
                self.base_address == old(self).base_address,
                self.increment_size == old(self).increment_size,
                self.capacity == old(self).capacity,
                self.offset == old(self).offset,
                self.id == old(self).id,
                free0 == old(self).free_list@,
                orig == old(self).drops(),
                self.increment_size > 0,
                self.increment_size <= self.offset <= self.capacity,
                self.offset % self.increment_size == 0,
                self.capacity % self.increment_size == 0,
                self.base_address + self.capacity <= usize::MAX,
                slots_fit(self.base_address, self.increment_size, self.free_list@),
                forall|i: int| 0 <= i < self.drop_list@.len()
                    ==> slots_fit(self.base_address, self.increment_size, #[trigger] self.drop_list@[i].heap_allocs@),
                forall|i: int| 0 <= i < orig_entries.len()
                    ==> slots_fit(self.base_address, self.increment_size, #[trigger] orig_entries[i].heap_allocs@),
                forall|i: int| 0 <= i < orig.len() ==> (#[trigger] orig[i]).0 <= frame_index,
            decreases n - k,
        {
            let ghost entry_index: int = k as int;
            assert(pending@[0] == orig_entries[entry_index]);
            let mut d: DropResource = pending.remove(0);
            assert(pending@ =~= orig_entries.subrange(k + 1, n as int));
            let ghost dv: (usize, Seq<usize>) = drop_view(d);
            assert(orig[entry_index] == dv);
            assert(orig.subrange(0, k + 1).drop_last() =~= orig.subrange(0, k as int));
            assert(orig.subrange(0, k + 1).last() == dv);
            assert(slots_fit(self.base_address, self.increment_size, d.heap_allocs@));
            let ghost kept_before: Seq<DropResource> = self.drop_list@;
            let ghost free_before: Seq<usize> = self.free_list@;
            if d.frame == 0 {
                d.frame = frame_index;
                self.drop_list.push(d);
                assert(self.drop_list@.map_values(|d: DropResource| drop_view(d))
                    =~= kept_before.map_values(|d: DropResource| drop_view(d)).push((frame_index, dv.1)));
            } else {
                let diff: usize = frame_index - d.frame;
                if diff > num_buffers {
                    self.free_list.append(&mut d.heap_allocs);
                    assert(self.free_list@ =~= free0 + (released_slots(orig.subrange(0, k as int), frame_index, num_buffers) + dv.1));
                    assert forall|i: int| 0 <= i < self.free_list@.len() implies
                        self.base_address + self.increment_size * #[trigger] self.free_list@[i] <= usize::MAX by {
                        if i < free_before.len() {
                            assert(self.free_list@[i] == free_before[i]);
                        } else {
                            assert(self.free_list@[i] == dv.1[i - free_before.len()]);
                        }
                    }
                } else {
                    self.drop_list.push(d);
                    assert(self.drop_list@.map_values(|d: DropResource| drop_view(d))
                        =~= kept_before.map_values(|d: DropResource| drop_view(d)).push(dv));
                }
            }
            assert forall|i: int| 0 <= i < self.drop_list@.len() implies
                slots_fit(self.base_address, self.increment_size, #[trigger] self.drop_list@[i].heap_allocs@) by {
                if i < kept_before.len() {
                    assert(self.drop_list@[i] == kept_before[i]);
                }
            }
            k = k + 1;
        }
        assert(orig.subrange(0, n as int) =~= orig);
    }

} // impl Heap

/// What `QueryHeap::allocate` does to the allocation index `alloc_index`: (query index handed
/// out, next allocation index).
pub open spec fn query_step(alloc_index: int) -> (int, int) {
    (alloc_index, alloc_index + 1)
}

/// Query indices handed out by `count` successive allocations from allocation index `start`, in
/// order, with the allocation index they leave.
pub open spec fn query_run(start: int, count: nat) -> (Seq<int>, int)
    decreases count,
{
    if count == 0 {
        (Seq::empty(), start)
    } else {
        let before: (Seq<int>, int) = query_run(start, (count - 1) as nat);
        let step: (int, int) = query_step(before.1);
        (before.0.push(step.0), step.1)
    }
}

/// After a query heap is made or reset, the queries of a frame get the indices 0, 1, 2, ... in
/// the order they are begun: query number `k + 1` gets index `k`.
pub proof fn lemma_queries_count_up_from_reset(count: nat)
    ensures
        query_run(0, count).0.len() == count,
        forall|k: int| 0 <= k < count ==> #[trigger] query_run(0, count).0[k] == k,
        query_run(0, count).1 == count,
    decreases count,
{
    if count > 0 {
        lemma_queries_count_up_from_reset((count - 1) as nat);
        let before: (Seq<int>, int) = query_run(0, (count - 1) as nat);
        assert forall|k: int| 0 <= k < count implies #[trigger] query_run(0, count).0[k] == k by {
            if k < count - 1 {
                assert(query_run(0, count).0[k] == before.0[k]);
            }
        }
    }
}

/// A heap of `capacity` GPU queries, handed out in order from the start of the heap and reset
/// each frame.
pub struct QueryHeap {
    alloc_index: usize,
    capacity: usize,
}

impl QueryHeap {
    /// Index of the next query handed out.
    pub closed spec fn alloc_index(&self) -> usize {
        self.alloc_index
    }

    /// Number of queries the heap holds.
    pub closed spec fn capacity(&self) -> usize {
        self.capacity
    }

    /// Creates the bookkeeping of a query heap holding `num_queries` queries.
    pub fn new(num_queries: usize) -> (heap: QueryHeap)
        ensures
            heap.alloc_index() == 0,
            heap.capacity() == num_queries,
    {
        QueryHeap { alloc_index: 0, capacity: num_queries }
    }

    /// Hands out the next query index; overflowing the heap panics, so it is excluded.
    pub fn allocate(&mut self) -> (index: usize)
        requires
            old(self).alloc_index() < old(self).capacity(),
        ensures
            (index as int, final(self).alloc_index() as int) == query_step(old(self).alloc_index() as int),
            final(self).capacity() == old(self).capacity(),
    {
        let alloc: usize = self.alloc_index;
        self.alloc_index = self.alloc_index + 1;
        alloc
    }

    /// Reset queries at the start of the frame, each query requested will bump the allocation index
    pub fn reset(&mut self)
        ensures
            final(self).alloc_index() == 0,
            final(self).capacity() == old(self).capacity(),
    {
        self.alloc_index = 0;
    }
}

} // verus!
