//! Where the Metal backend binds push constants and descriptor bindings: each shader stage
//! numbers its buffer slots, vertex slots after the vertex samplers (from 3) and fragment
//! slots after the fragment samplers (from 1). Push constants take a slot in each stage that
//! sees them; descriptor bindings of one register class and register share a slot per stage,
//! each taking the next entry (sub offset) in it.

use vstd::prelude::*;

use crate::gfx::{DescriptorBinding, DescriptorType, PushConstantInfo, ShaderVisibility};
use crate::gfx::mtl::{descriptor_register_kind, register_kind};

verus! {

/// First vertex stage buffer slot after the vertex samplers.
pub const FIRST_VERTEX_SLOT: u32 = 3;
/// First fragment stage buffer slot after the fragment samplers.
pub const FIRST_FRAGMENT_SLOT: u32 = 1;

/// Where a register is bound: the stage buffer slot (the vertex one when both stages see
/// it), the number of descriptors or push constant values, and the entry within the slot.
#[derive(Copy, Clone, Debug, PartialEq, Eq, Structural)]
pub struct MetalSlot {
    pub index: u32,
    pub count: Option<u32>,
    pub sub_offset: u32,
}

/// A register a pipeline binds: shader register, register space and descriptor type.
#[derive(Copy, Clone, Debug, PartialEq, Eq, Structural)]
pub struct SlotKey {
    pub shader_register: u32,
    pub register_space: u32,
    pub binding_type: DescriptorType,
}

/// What shares a stage buffer slot: the register class letter and the register.
#[derive(Copy, Clone, Debug, PartialEq, Eq, Structural)]
pub struct GroupKey {
    pub kind: char,
    pub shader_register: u32,
}

/// Slot numbering state: the next free slot of each stage, the slot and next entry of each
/// group in each stage, the slot of each register bound so far, and the slot each stage binds
/// each register it sees at.
pub struct SlotAssignment {
    pub vertex_next: int,
    pub fragment_next: int,
    pub vertex_groups: Map<GroupKey, (int, int)>,
    pub fragment_groups: Map<GroupKey, (int, int)>,
    pub slots: Map<SlotKey, MetalSlot>,
    pub vertex_slots: Map<SlotKey, MetalSlot>,
    pub fragment_slots: Map<SlotKey, MetalSlot>,
}

/// Nothing bound yet.
pub open spec fn initial_assignment() -> SlotAssignment {
    SlotAssignment {
        vertex_next: FIRST_VERTEX_SLOT as int,
        fragment_next: FIRST_FRAGMENT_SLOT as int,
        vertex_groups: Map::empty(),
        fragment_groups: Map::empty(),
        slots: Map::empty(),
        vertex_slots: Map::empty(),
        fragment_slots: Map::empty(),
    }
}

/// Binds a push constant block: a new slot in each stage that sees it (the vertex one is the
/// block's slot when both do; compute blocks have no stage slot here and report slot 0). A
/// later block for the same register replaces an earlier one.
pub open spec fn push_step(s: SlotAssignment, push: PushConstantInfo) -> SlotAssignment {
    let key: SlotKey = SlotKey {
        shader_register: push.shader_register,
        register_space: push.register_space,
        binding_type: DescriptorType::PushConstants,
    };
    let uses_vertex: bool = push.visibility == ShaderVisibility::Vertex || push.visibility == ShaderVisibility::All;
    let uses_fragment: bool = push.visibility == ShaderVisibility::Fragment || push.visibility == ShaderVisibility::All;
    let index: int = if uses_vertex { s.vertex_next } else if uses_fragment { s.fragment_next } else { 0 };
    SlotAssignment {
        vertex_next: if uses_vertex { s.vertex_next + 1 } else { s.vertex_next },
        fragment_next: if uses_fragment { s.fragment_next + 1 } else { s.fragment_next },
        vertex_groups: s.vertex_groups,
        fragment_groups: s.fragment_groups,
        slots: s.slots.insert(key, MetalSlot { index: index as u32, count: Some(push.num_values), sub_offset: 0 }),
        vertex_slots: if uses_vertex {
            s.vertex_slots.insert(key, MetalSlot { index: s.vertex_next as u32, count: Some(push.num_values), sub_offset: 0 })
        } else {
            s.vertex_slots
        },
        fragment_slots: if uses_fragment {
            s.fragment_slots.insert(key, MetalSlot { index: s.fragment_next as u32, count: Some(push.num_values), sub_offset: 0 })
        } else {
            s.fragment_slots
        },
    }
}

/// Slot and entry a group takes in a stage with groups `groups` and next free slot `next`:
/// its slot and next entry if it has one, else a new slot and its first entry.
pub open spec fn group_entry(groups: Map<GroupKey, (int, int)>, next: int, key: GroupKey) -> (int, int) {
    if groups.contains_key(key) { groups[key] } else { (next, 0) }
}

/// The stage's groups after `key` takes an entry.
pub open spec fn groups_after(groups: Map<GroupKey, (int, int)>, next: int, key: GroupKey) -> Map<GroupKey, (int, int)> {
    let (slot, sub) = group_entry(groups, next, key);
    groups.insert(key, (slot, sub + 1))
}

/// The stage's next free slot after `key` takes an entry.
pub open spec fn next_after(groups: Map<GroupKey, (int, int)>, next: int, key: GroupKey) -> int {
    if groups.contains_key(key) { next } else { next + 1 }
}

/// Binds a descriptor binding: its group takes an entry in each stage that sees it, and the
/// register is bound at the vertex entry when the vertex stage sees it, else at the fragment
/// entry (compute bindings report slot 0). A later binding of the same register replaces an
/// earlier one.
pub open spec fn binding_step(s: SlotAssignment, b: DescriptorBinding) -> SlotAssignment {
    let group: GroupKey = GroupKey { kind: register_kind(b.binding_type), shader_register: b.shader_register };
    let key: SlotKey = SlotKey {
        shader_register: b.shader_register,
        register_space: b.register_space,
        binding_type: b.binding_type,
    };
    let uses_vertex: bool = b.visibility == ShaderVisibility::Vertex || b.visibility == ShaderVisibility::All;
    let uses_fragment: bool = b.visibility == ShaderVisibility::Fragment || b.visibility == ShaderVisibility::All;
    let entry: (int, int) = if uses_vertex {
        group_entry(s.vertex_groups, s.vertex_next, group)
    } else if uses_fragment {
        group_entry(s.fragment_groups, s.fragment_next, group)
    } else {
        (0, 0)
    };
    SlotAssignment {
        vertex_next: if uses_vertex { next_after(s.vertex_groups, s.vertex_next, group) } else { s.vertex_next },
        fragment_next: if uses_fragment { next_after(s.fragment_groups, s.fragment_next, group) } else { s.fragment_next },
        vertex_groups: if uses_vertex { groups_after(s.vertex_groups, s.vertex_next, group) } else { s.vertex_groups },
        fragment_groups: if uses_fragment {
            groups_after(s.fragment_groups, s.fragment_next, group)
        } else {
            s.fragment_groups
        },
        slots: s.slots.insert(key, MetalSlot { index: entry.0 as u32, count: b.num_descriptors, sub_offset: entry.1 as u32 }),
        vertex_slots: if uses_vertex {
            let v: (int, int) = group_entry(s.vertex_groups, s.vertex_next, group);
            s.vertex_slots.insert(key, MetalSlot { index: v.0 as u32, count: b.num_descriptors, sub_offset: v.1 as u32 })
        } else {
            s.vertex_slots
        },
        fragment_slots: if uses_fragment {
            let f: (int, int) = group_entry(s.fragment_groups, s.fragment_next, group);
            s.fragment_slots.insert(key, MetalSlot { index: f.0 as u32, count: b.num_descriptors, sub_offset: f.1 as u32 })
        } else {
            s.fragment_slots
        },
    }
}

/// The assignment after binding the push constant blocks `push` in order.
pub open spec fn assign_push(push: Seq<PushConstantInfo>) -> SlotAssignment
    decreases push.len(),
{
    if push.len() == 0 {
        initial_assignment()
    } else {
        push_step(assign_push(push.drop_last()), push.last())
    }
}

/// The assignment after binding the push constant blocks and then the descriptor bindings
/// `bindings` in order.
pub open spec fn assign_all(push: Seq<PushConstantInfo>, bindings: Seq<DescriptorBinding>) -> SlotAssignment
    decreases bindings.len(),
{
    if bindings.len() == 0 {
        assign_push(push)
    } else {
        binding_step(assign_all(push, bindings.drop_last()), bindings.last())
    }
}

/// Where the vertex stage binds each register it sees, after binding the push constant blocks
/// `push` and then the descriptor bindings `bindings` in order.
pub open spec fn vertex_slots(push: Seq<PushConstantInfo>, bindings: Seq<DescriptorBinding>) -> Map<SlotKey, MetalSlot> {
    assign_all(push, bindings).vertex_slots
}

/// Where the fragment stage binds each register it sees, after binding the push constant
/// blocks `push` and then the descriptor bindings `bindings` in order.
pub open spec fn fragment_slots(push: Seq<PushConstantInfo>, bindings: Seq<DescriptorBinding>) -> Map<SlotKey, MetalSlot> {
    assign_all(push, bindings).fragment_slots
}

/// The register a push constant block binds.
pub open spec fn push_key(push: PushConstantInfo) -> SlotKey {
    SlotKey { shader_register: push.shader_register, register_space: push.register_space, binding_type: DescriptorType::PushConstants }
}

/// The register a descriptor binding binds.
pub open spec fn binding_key(b: DescriptorBinding) -> SlotKey {
    SlotKey { shader_register: b.shader_register, register_space: b.register_space, binding_type: b.binding_type }
}

proof fn lemma_push_bound(push: Seq<PushConstantInfo>, i: int)
    requires
        0 <= i < push.len(),
    ensures
        assign_push(push).slots.contains_key(push_key(push[i])),
    decreases push.len(),
{
    if i < push.len() - 1 {
        lemma_push_bound(push.drop_last(), i);
        assert(push.drop_last()[i] == push[i]);
    }
}

proof fn lemma_bound_stays(push: Seq<PushConstantInfo>, bindings: Seq<DescriptorBinding>, key: SlotKey)
    requires
        assign_push(push).slots.contains_key(key),
    ensures
        assign_all(push, bindings).slots.contains_key(key),
    decreases bindings.len(),
{
    if bindings.len() > 0 {
        lemma_bound_stays(push, bindings.drop_last(), key);
    }
}

proof fn lemma_binding_bound(push: Seq<PushConstantInfo>, bindings: Seq<DescriptorBinding>, j: int)
    requires
        0 <= j < bindings.len(),
    ensures
        assign_all(push, bindings).slots.contains_key(binding_key(bindings[j])),
    decreases bindings.len(),
{
    if j < bindings.len() - 1 {
        lemma_binding_bound(push, bindings.drop_last(), j);
        assert(bindings.drop_last()[j] == bindings[j]);
    }
}

/// Every register a pipeline declares is bound on Metal: each push constant block and each
/// descriptor binding finds a slot through the lookup built from them.
pub proof fn lemma_declared_registers_have_metal_slots(push: Seq<PushConstantInfo>, bindings: Seq<DescriptorBinding>)
    ensures
        forall|i: int| 0 <= i < push.len() ==> assign_all(push, bindings).slots.contains_key(#[trigger] push_key(push[i])),
        forall|j: int| 0 <= j < bindings.len() ==> assign_all(push, bindings).slots.contains_key(
            #[trigger] binding_key(bindings[j])),
{
    assert forall|i: int| 0 <= i < push.len() implies assign_all(push, bindings).slots.contains_key(
        #[trigger] push_key(push[i])) by {
        lemma_push_bound(push, i);
        lemma_bound_stays(push, bindings, push_key(push[i]));
    }
    assert forall|j: int| 0 <= j < bindings.len() implies assign_all(push, bindings).slots.contains_key(
        #[trigger] binding_key(bindings[j])) by {
        lemma_binding_bound(push, bindings, j);
    }
}

/// Slot and next entry of each group of one shader stage.
struct StageGroups {
    keys: Vec<GroupKey>,
    entries: Vec<(u32, u32)>,
    model: Ghost<Map<GroupKey, (int, int)>>,
}

impl StageGroups {
    /// The lists hold the model, each group once, with at most `bound` entries taken and
    /// slots below `next`.
    spec fn wf(&self, next: int, bound: int) -> bool {
        &&& self.keys@.len() == self.entries@.len()
        &&& forall|i: int, j: int| 0 <= i < j < self.keys@.len() ==> self.keys@[i] != self.keys@[j]
        &&& forall|k: GroupKey| #[trigger] self.model@.contains_key(k) ==> exists|i: int| 0 <= i < self.keys@.len()
            && self.keys@[i] == k
        &&& forall|i: int| 0 <= i < self.keys@.len() ==> #[trigger] self.model@.contains_key(self.keys@[i])
            && self.model@[self.keys@[i]] == (self.entries@[i].0 as int, self.entries@[i].1 as int)
        &&& forall|i: int| 0 <= i < self.keys@.len() ==> (#[trigger] self.entries@[i]).1 <= bound
            && self.entries@[i].0 < next
    }

    fn new() -> (groups: StageGroups)
        ensures
            groups.model@ == Map::<GroupKey, (int, int)>::empty(),
            forall|next: int, bound: int| groups.wf(next, bound),
    {
        StageGroups { keys: Vec::new(), entries: Vec::new(), model: Ghost(Map::empty()) }
    }

    /// Takes the next entry of group `key`, opening a slot at `next` for a new group; returns
    /// the slot and entry taken and the next free slot.
    fn take_entry(&mut self, next: u32, key: GroupKey, Ghost(bound): Ghost<int>) -> (taken: ((u32, u32), u32))
        requires
            old(self).wf(next as int, bound),
            next < u32::MAX,
            0 <= bound < u32::MAX,
        ensures
            (taken.0.0 as int, taken.0.1 as int) == group_entry(old(self).model@, next as int, key),
            taken.1 as int == next_after(old(self).model@, next as int, key),
            final(self).model@ == groups_after(old(self).model@, next as int, key),
            final(self).wf(taken.1 as int, bound + 1),
    {
        let mut i: usize = 0;
        while i < self.keys.len()
            invariant
                self.wf(next as int, bound),
                self.model@ == old(self).model@,
                self.keys@ == old(self).keys@,
                self.entries@ == old(self).entries@,
                next < u32::MAX,
                0 <= bound < u32::MAX,
                i <= self.keys@.len(),
                forall|j: int| 0 <= j < i ==> self.keys@[j] != key,
            decreases self.keys@.len() - i,
        {
            if self.keys[i] == key {
                let (slot, sub) = self.entries[i];
                assert(self.entries@[i as int].1 <= bound);
                assert(self.model@.contains_key(self.keys@[i as int]));
                let ghost old_entries: Seq<(u32, u32)> = self.entries@;
                let ghost old_model: Map<GroupKey, (int, int)> = self.model@;
                self.entries.set(i, (slot, sub + 1));
                proof {
                    self.model@ = self.model@.insert(key, (slot as int, sub + 1));
                    assert forall|k: GroupKey| #[trigger] self.model@.contains_key(k) implies exists|j: int|
                        0 <= j < self.keys@.len() && self.keys@[j] == k by {
                        if k == key {
                            assert(self.keys@[i as int] == k);
                        } else {
                            assert(old_model.contains_key(k));
                        }
                    }
                    assert forall|j: int| 0 <= j < self.keys@.len() implies #[trigger] self.model@.contains_key(self.keys@[j])
                        && self.model@[self.keys@[j]] == (self.entries@[j].0 as int, self.entries@[j].1 as int) by {
                        if j != i {
                            assert(self.keys@[j] != key);
                            assert(self.entries@[j] == old_entries[j]);
                        }
                    }
                    assert forall|j: int| 0 <= j < self.keys@.len() implies (#[trigger] self.entries@[j]).1 <= bound + 1
                        && self.entries@[j].0 < next by {
                        if j != i {
                            assert(self.entries@[j] == old_entries[j]);
                        }
                    }
                }
                return ((slot, sub), next);
            }
            i = i + 1;
        }
        assert(!self.model@.contains_key(key)) by {
            if self.model@.contains_key(key) {
                let j: int = choose|j: int| 0 <= j < self.keys@.len() && self.keys@[j] == key;
                assert(self.keys@[j] != key);
            }
        }
        let ghost old_keys: Seq<GroupKey> = self.keys@;
        let ghost old_entries: Seq<(u32, u32)> = self.entries@;
        let ghost old_model: Map<GroupKey, (int, int)> = self.model@;
        self.keys.push(key);
        self.entries.push((next, 1));
        proof {
            self.model@ = self.model@.insert(key, (next as int, 1));
            assert forall|k: GroupKey| #[trigger] self.model@.contains_key(k) implies exists|j: int|
                0 <= j < self.keys@.len() && self.keys@[j] == k by {
                if k == key {
                    assert(self.keys@[old_keys.len() as int] == k);
                } else {
                    assert(old_model.contains_key(k));
                    let j: int = choose|j: int| 0 <= j < old_keys.len() && old_keys[j] == k;
                    assert(self.keys@[j] == k);
                }
            }
            assert forall|j: int| 0 <= j < self.keys@.len() implies #[trigger] self.model@.contains_key(self.keys@[j])
                && self.model@[self.keys@[j]] == (self.entries@[j].0 as int, self.entries@[j].1 as int) by {
                if j < old_keys.len() {
                    assert(self.keys@[j] == old_keys[j]);
                    assert(self.entries@[j] == old_entries[j]);
                }
            }
            assert forall|j: int, l: int| 0 <= j < l < self.keys@.len() implies self.keys@[j] != self.keys@[l] by {
                if l == old_keys.len() {
                    assert(self.keys@[j] == old_keys[j]);
                }
            }
            assert forall|j: int| 0 <= j < self.keys@.len() implies (#[trigger] self.entries@[j]).1 <= bound + 1
                && self.entries@[j].0 < next + 1 by {
                if j < old_keys.len() {
                    assert(self.entries@[j] == old_entries[j]);
                }
            }
        }
        ((next, 0), next + 1)
    }
}

/// Where each register a pipeline binds is bound on Metal.
pub struct MetalSlotLookup {
    keys: Vec<SlotKey>,
    slots: Vec<MetalSlot>,
    model: Ghost<Map<SlotKey, MetalSlot>>,
}

impl MetalSlotLookup {
    /// The slot of each bound register.
    pub closed spec fn view(&self) -> Map<SlotKey, MetalSlot> {
        self.model@
    }

    /// The lists hold the model, each register once.
    pub closed spec fn wf(&self) -> bool {
        &&& self.keys@.len() == self.slots@.len()
        &&& forall|i: int, j: int| 0 <= i < j < self.keys@.len() ==> self.keys@[i] != self.keys@[j]
        &&& forall|k: SlotKey| #[trigger] self.model@.contains_key(k) ==> exists|i: int| 0 <= i < self.keys@.len()
            && self.keys@[i] == k
        &&& forall|i: int| 0 <= i < self.keys@.len() ==> #[trigger] self.model@.contains_key(self.keys@[i])
            && self.model@[self.keys@[i]] == self.slots@[i]
    }

    fn new() -> (lookup: MetalSlotLookup)
        ensures
            lookup.wf(),
            lookup@ == Map::<SlotKey, MetalSlot>::empty(),
    {
        MetalSlotLookup { keys: Vec::new(), slots: Vec::new(), model: Ghost(Map::empty()) }
    }

    #[verifier::spinoff_prover]
    fn insert(&mut self, key: SlotKey, slot: MetalSlot)
        requires
            old(self).wf(),
        ensures
            final(self).wf(),
            final(self)@ == old(self)@.insert(key, slot),
    {
        let mut i: usize = 0;
        while i < self.keys.len()
            invariant
                self.wf(),
                self@ == old(self)@,
                i <= self.keys@.len(),
                forall|j: int| 0 <= j < i ==> self.keys@[j] != key,
            decreases self.keys@.len() - i,
        {
            if self.keys[i] == key {
                let ghost old_slots: Seq<MetalSlot> = self.slots@;
                let ghost old_model: Map<SlotKey, MetalSlot> = self.model@;
                assert forall|j: int| 0 <= j < self.keys@.len() implies old_model.contains_key(#[trigger] self.keys@[j])
                    && old_model[self.keys@[j]] == old_slots[j] by {
                    assert(self.model@.contains_key(self.keys@[j]));
                }
                self.slots.set(i, slot);
                proof {
                    self.model@ = self.model@.insert(key, slot);
                    assert forall|k: SlotKey| #[trigger] self.model@.contains_key(k) implies exists|j: int|
                        0 <= j < self.keys@.len() && self.keys@[j] == k by {
                        if k == key {
                            assert(self.keys@[i as int] == k);
                        } else {
                            assert(old_model.contains_key(k));
                        }
                    }
                    assert forall|j: int| 0 <= j < self.keys@.len() implies #[trigger] self.model@.contains_key(self.keys@[j])
                        && self.model@[self.keys@[j]] == self.slots@[j] by {
                        if j != i {
                            assert(self.keys@[j] != self.keys@[i as int]);
                            assert(self.slots@[j] == old_slots[j]);
                            assert(old_model.contains_key(self.keys@[j]) && old_model[self.keys@[j]] == old_slots[j]);
                            assert(self.model@[self.keys@[j]] == old_model[self.keys@[j]]);
                        } else {
                            assert(self.slots@[j] == slot);
                        }
                    }
                }
                return;
            }
            i = i + 1;
        }
        let ghost old_keys: Seq<SlotKey> = self.keys@;
        let ghost old_slots: Seq<MetalSlot> = self.slots@;
        let ghost old_model: Map<SlotKey, MetalSlot> = self.model@;
        self.keys.push(key);
        self.slots.push(slot);
        proof {
            self.model@ = self.model@.insert(key, slot);
            assert forall|j: int, l: int| 0 <= j < l < self.keys@.len() implies self.keys@[j] != self.keys@[l] by {
                if l == old_keys.len() {
                    assert(self.keys@[j] == old_keys[j]);
                }
            }
            assert forall|k: SlotKey| #[trigger] self.model@.contains_key(k) implies exists|j: int|
                0 <= j < self.keys@.len() && self.keys@[j] == k by {
                if k == key {
                    assert(self.keys@[old_keys.len() as int] == k);
                } else {
                    assert(old_model.contains_key(k));
                    let j: int = choose|j: int| 0 <= j < old_keys.len() && old_keys[j] == k;
                    assert(self.keys@[j] == k);
                }
            }
            assert forall|j: int| 0 <= j < self.keys@.len() implies #[trigger] self.model@.contains_key(self.keys@[j])
                && self.model@[self.keys@[j]] == self.slots@[j] by {
                if j < old_keys.len() {
                    assert(self.keys@[j] == old_keys[j]);
                    assert(self.slots@[j] == old_slots[j]);
                    if self.keys@[j] == key {
                        assert(false);
                    }
                }
            }
        }
    }

    /// The slot `register` in `space` of type `ty` is bound at, or `None` when the pipeline
    /// does not bind it.
    pub fn get(&self, register: u32, space: u32, ty: DescriptorType) -> (slot: Option<MetalSlot>)
        requires
            self.wf(),
        ensures
            ({
                let key: SlotKey = SlotKey { shader_register: register, register_space: space, binding_type: ty };
                slot == if self@.contains_key(key) { Some(self@[key]) } else { None }
            }),
    {
        let key = SlotKey { shader_register: register, register_space: space, binding_type: ty };
        let mut i: usize = 0;
        while i < self.keys.len()
            invariant
                self.wf(),
                key == (SlotKey { shader_register: register, register_space: space, binding_type: ty }),
                i <= self.keys@.len(),
                forall|j: int| 0 <= j < i ==> self.keys@[j] != key,
            decreases self.keys@.len() - i,
        {
            if self.keys[i] == key {
                assert(self.model@.contains_key(self.keys@[i as int]));
                return Some(self.slots[i]);
            }
            i = i + 1;
        }
        assert(!self@.contains_key(key)) by {
            if self.model@.contains_key(key) {
                let j: int = choose|j: int| 0 <= j < self.keys@.len() && self.keys@[j] == key;
                assert(self.keys@[j] != key);
            }
        }
        None
    }
}

/// Numbers the Metal buffer slots of a pipeline: push constant blocks first, then descriptor
/// bindings, each in order (see `assign_all`). Every slot and entry count fits a `u32`.
pub fn build_slot_lookup(push: &Vec<PushConstantInfo>, bindings: &Vec<DescriptorBinding>) -> (lookup: MetalSlotLookup)
    requires
        push@.len() + bindings@.len() + FIRST_VERTEX_SLOT < u32::MAX,
    ensures
        lookup.wf(),
        lookup@ == assign_all(push@, bindings@).slots,
{
    let (lookup, _vertex, _fragment) = build_lookups(push, bindings);
    lookup
}

/// Builds the binders of the vertex and fragment stages of a render pipeline: where each stage
/// binds each push constant block and descriptor binding it sees (`vertex_slots`,
/// `fragment_slots`). A register both stages see has a slot in each. Every slot and entry count
/// fits a `u32`.
pub fn build_stage_slots(push: &Vec<PushConstantInfo>, bindings: &Vec<DescriptorBinding>)
    -> (slots: (MetalSlotLookup, MetalSlotLookup))
    requires
        push@.len() + bindings@.len() + FIRST_VERTEX_SLOT < u32::MAX,
    ensures
        slots.0.wf(),
        slots.1.wf(),
        slots.0@ == vertex_slots(push@, bindings@),
        slots.1@ == fragment_slots(push@, bindings@),
{
    let (_lookup, vertex, fragment) = build_lookups(push, bindings);
    (vertex, fragment)
}

fn build_lookups(push: &Vec<PushConstantInfo>, bindings: &Vec<DescriptorBinding>)
    -> (lookups: (MetalSlotLookup, MetalSlotLookup, MetalSlotLookup))
    requires
        push@.len() + bindings@.len() + FIRST_VERTEX_SLOT < u32::MAX,
    ensures
        lookups.0.wf(),
        lookups.1.wf(),
        lookups.2.wf(),
        lookups.0@ == assign_all(push@, bindings@).slots,
        lookups.1@ == assign_all(push@, bindings@).vertex_slots,
        lookups.2@ == assign_all(push@, bindings@).fragment_slots,
{
    let mut lookup: MetalSlotLookup = MetalSlotLookup::new();
    let mut vertex_lookup: MetalSlotLookup = MetalSlotLookup::new();
    let mut fragment_lookup: MetalSlotLookup = MetalSlotLookup::new();
    let mut vertex_next: u32 = FIRST_VERTEX_SLOT;
    let mut fragment_next: u32 = FIRST_FRAGMENT_SLOT;
    let mut i: usize = 0;
    while i < push.len()
        invariant
            i <= push@.len(),
            push@.len() + bindings@.len() + FIRST_VERTEX_SLOT < u32::MAX,
            lookup.wf(),
            lookup@ == assign_push(push@.take(i as int)).slots,
            vertex_lookup.wf(),
            fragment_lookup.wf(),
            vertex_lookup@ == assign_push(push@.take(i as int)).vertex_slots,
            fragment_lookup@ == assign_push(push@.take(i as int)).fragment_slots,
            vertex_next == assign_push(push@.take(i as int)).vertex_next,
            fragment_next == assign_push(push@.take(i as int)).fragment_next,
            assign_push(push@.take(i as int)).vertex_groups == Map::<GroupKey, (int, int)>::empty(),
            assign_push(push@.take(i as int)).fragment_groups == Map::<GroupKey, (int, int)>::empty(),
            vertex_next <= FIRST_VERTEX_SLOT + i,
            fragment_next <= FIRST_FRAGMENT_SLOT + i,
        decreases push@.len() - i,
    {
        let p: PushConstantInfo = push[i];
        proof {
            assert(push@.take(i + 1).drop_last() =~= push@.take(i as int));
            assert(push@.take(i + 1).last() == p);
        }
        let uses_vertex: bool = p.visibility == ShaderVisibility::Vertex || p.visibility == ShaderVisibility::All;
        let uses_fragment: bool = p.visibility == ShaderVisibility::Fragment || p.visibility == ShaderVisibility::All;
        let index: u32 = if uses_vertex { vertex_next } else if uses_fragment { fragment_next } else { 0 };
        let key = SlotKey {
            shader_register: p.shader_register,
            register_space: p.register_space,
            binding_type: DescriptorType::PushConstants,
        };
        if uses_vertex {
            vertex_lookup.insert(key, MetalSlot { index: vertex_next, count: Some(p.num_values), sub_offset: 0 });
            vertex_next = vertex_next + 1;
        }
        if uses_fragment {
            fragment_lookup.insert(key, MetalSlot { index: fragment_next, count: Some(p.num_values), sub_offset: 0 });
            fragment_next = fragment_next + 1;
        }
        lookup.insert(key, MetalSlot { index, count: Some(p.num_values), sub_offset: 0 });
        i = i + 1;
    }
    assert(push@.take(push@.len() as int) =~= push@);
    assert(bindings@.take(0) =~= Seq::<DescriptorBinding>::empty());

    let mut vertex_groups: StageGroups = StageGroups::new();
    let mut fragment_groups: StageGroups = StageGroups::new();
    let mut j: usize = 0;
    while j < bindings.len()
        invariant
            j <= bindings@.len(),
            push@.len() + bindings@.len() + FIRST_VERTEX_SLOT < u32::MAX,
            lookup.wf(),
            lookup@ == assign_all(push@, bindings@.take(j as int)).slots,
            vertex_lookup.wf(),
            fragment_lookup.wf(),
            vertex_lookup@ == assign_all(push@, bindings@.take(j as int)).vertex_slots,
            fragment_lookup@ == assign_all(push@, bindings@.take(j as int)).fragment_slots,
            vertex_next == assign_all(push@, bindings@.take(j as int)).vertex_next,
            fragment_next == assign_all(push@, bindings@.take(j as int)).fragment_next,
            vertex_groups.model@ == assign_all(push@, bindings@.take(j as int)).vertex_groups,
            fragment_groups.model@ == assign_all(push@, bindings@.take(j as int)).fragment_groups,
            vertex_groups.wf(vertex_next as int, j as int),
            fragment_groups.wf(fragment_next as int, j as int),
            vertex_next <= FIRST_VERTEX_SLOT + push@.len() + j,
            fragment_next <= FIRST_FRAGMENT_SLOT + push@.len() + j,
        decreases bindings@.len() - j,
    {
        let b: DescriptorBinding = bindings[j];
        proof {
            assert(bindings@.take(j + 1).drop_last() =~= bindings@.take(j as int));
            assert(bindings@.take(j + 1).last() == b);
        }
        let group = GroupKey { kind: descriptor_register_kind(b.binding_type), shader_register: b.shader_register };
        let uses_vertex: bool = b.visibility == ShaderVisibility::Vertex || b.visibility == ShaderVisibility::All;
        let uses_fragment: bool = b.visibility == ShaderVisibility::Fragment || b.visibility == ShaderVisibility::All;
        let key = SlotKey { shader_register: b.shader_register, register_space: b.register_space, binding_type: b.binding_type };
        let mut entry: (u32, u32) = (0, 0);
        if uses_fragment {
            let (taken, next) = fragment_groups.take_entry(fragment_next, group, Ghost(j as int));
            fragment_next = next;
            fragment_lookup.insert(key, MetalSlot { index: taken.0, count: b.num_descriptors, sub_offset: taken.1 });
            if !uses_vertex {
                entry = taken;
            }
        } else {
            proof {
                assert(fragment_groups.wf(fragment_next as int, j + 1));
            }
        }
        if uses_vertex {
            let (taken, next) = vertex_groups.take_entry(vertex_next, group, Ghost(j as int));
            vertex_next = next;
            vertex_lookup.insert(key, MetalSlot { index: taken.0, count: b.num_descriptors, sub_offset: taken.1 });
            entry = taken;
        } else {
            proof {
                assert(vertex_groups.wf(vertex_next as int, j + 1));
            }
        }
        lookup.insert(key, MetalSlot { index: entry.0, count: b.num_descriptors, sub_offset: entry.1 });
        j = j + 1;
    }
    assert(bindings@.take(bindings@.len() as int) =~= bindings@);
    (lookup, vertex_lookup, fragment_lookup)
}

} // verus!
