//! Layout of a Direct3D 12 root signature: push constants first, one root parameter each,
//! then one descriptor table per group of descriptor bindings that share visibility, shader
//! register and descriptor type; and the lookup of the root parameter slot a shader
//! register is bound through.

use vstd::prelude::*;

use crate::gfx::{DescriptorBinding, DescriptorType, PipelineSlotInfo, PushConstantInfo, ShaderVisibility};

verus! {

/// What descriptor bindings are grouped into tables by.
#[derive(Copy, Clone, Debug, PartialEq, Eq, Structural)]
pub struct TableKey {
    pub visibility: ShaderVisibility,
    pub shader_register: u32,
    pub binding_type: DescriptorType,
}

/// The table a binding belongs to.
pub open spec fn table_key(binding: DescriptorBinding) -> TableKey {
    TableKey {
        visibility: binding.visibility,
        shader_register: binding.shader_register,
        binding_type: binding.binding_type,
    }
}

/// The distinct table keys of `bindings`, in the order they first appear.
pub open spec fn table_keys(bindings: Seq<DescriptorBinding>) -> Seq<TableKey>
    decreases bindings.len(),
{
    if bindings.len() == 0 {
        Seq::empty()
    } else {
        let earlier: Seq<TableKey> = table_keys(bindings.drop_last());
        if earlier.contains(table_key(bindings.last())) {
            earlier
        } else {
            earlier.push(table_key(bindings.last()))
        }
    }
}

/// The bindings of the table with key `key`, in their order in `bindings`.
pub open spec fn table_bindings(bindings: Seq<DescriptorBinding>, key: TableKey) -> Seq<DescriptorBinding> {
    bindings.filter(|b: DescriptorBinding| table_key(b) == key)
}

/// A push constant binds `register` in `space`.
pub open spec fn push_binds(push: PushConstantInfo, register: u32, space: u32) -> bool {
    push.shader_register == register && push.register_space == space
}

/// Index of the last push constant of `push` binding `register` in `space`.
pub open spec fn last_push(push: Seq<PushConstantInfo>, register: u32, space: u32) -> Option<nat>
    decreases push.len(),
{
    if push.len() == 0 {
        None
    } else if push_binds(push.last(), register, space) {
        Some((push.len() - 1) as nat)
    } else {
        last_push(push.drop_last(), register, space)
    }
}

/// A binding binds `register` in `space` as `ty`.
pub open spec fn binding_binds(binding: DescriptorBinding, register: u32, space: u32, ty: DescriptorType) -> bool {
    binding.shader_register == register && binding.register_space == space && binding.binding_type == ty
}

/// Index of the first binding of `bindings` that binds `register` in `space` as `ty`.
pub open spec fn first_binding(bindings: Seq<DescriptorBinding>, register: u32, space: u32, ty: DescriptorType) -> Option<nat>
    decreases bindings.len(),
{
    if bindings.len() == 0 {
        None
    } else {
        match first_binding(bindings.drop_last(), register, space, ty) {
            Some(i) => Some(i),
            None => if binding_binds(bindings.last(), register, space, ty) {
                Some((bindings.len() - 1) as nat)
            } else {
                None
            },
        }
    }
}

/// Index of the first table of `tables` holding a binding of `register` in `space` as `ty`.
pub open spec fn first_table(tables: Seq<Seq<DescriptorBinding>>, register: u32, space: u32, ty: DescriptorType) -> Option<nat>
    decreases tables.len(),
{
    if tables.len() == 0 {
        None
    } else {
        match first_table(tables.drop_last(), register, space, ty) {
            Some(t) => Some(t),
            None => if first_binding(tables.last(), register, space, ty) is Some {
                Some((tables.len() - 1) as nat)
            } else {
                None
            },
        }
    }
}

/// The bindings of each table, tables in the order of `keys`.
pub open spec fn tables_of(bindings: Seq<DescriptorBinding>, keys: Seq<TableKey>) -> Seq<Seq<DescriptorBinding>> {
    keys.map_values(|key: TableKey| table_bindings(bindings, key))
}

/// The slot `register` in `space` of type `ty` is bound through, given the push constants
/// and the tables (after the push constants) of a root signature: push constants by the last
/// one declared for the register, descriptors by the first table holding them and the first
/// such binding in it.
pub open spec fn slot_of(push: Seq<PushConstantInfo>, tables: Seq<Seq<DescriptorBinding>>, register: u32, space: u32, ty: DescriptorType) -> Option<PipelineSlotInfo> {
    if ty == DescriptorType::PushConstants {
        match last_push(push, register, space) {
            Some(i) => Some(PipelineSlotInfo { index: i as u32, count: Some(push[i as int].num_values) }),
            None => None,
        }
    } else {
        match first_table(tables, register, space, ty) {
            Some(t) => {
                let k: nat = first_binding(tables[t as int], register, space, ty)->0;
                Some(PipelineSlotInfo { index: (push.len() + t) as u32, count: tables[t as int][k as int].num_descriptors })
            },
            None => None,
        }
    }
}

proof fn lemma_table_keys_len(bindings: Seq<DescriptorBinding>)
    ensures
        table_keys(bindings).len() <= bindings.len(),
    decreases bindings.len(),
{
    if bindings.len() > 0 {
        lemma_table_keys_len(bindings.drop_last());
    }
}

proof fn lemma_last_push_in_range(push: Seq<PushConstantInfo>, register: u32, space: u32)
    ensures
        last_push(push, register, space) matches Some(i) ==> i < push.len(),
    decreases push.len(),
{
    if push.len() > 0 {
        lemma_last_push_in_range(push.drop_last(), register, space);
    }
}

proof fn lemma_first_binding_prefix(bindings: Seq<DescriptorBinding>, m: int, register: u32, space: u32, ty: DescriptorType)
    requires
        0 <= m <= bindings.len(),
        first_binding(bindings.take(m), register, space, ty) is Some,
    ensures
        first_binding(bindings, register, space, ty) == first_binding(bindings.take(m), register, space, ty),
    decreases bindings.len(),
{
    if m < bindings.len() {
        assert(bindings.drop_last().take(m) =~= bindings.take(m));
        lemma_first_binding_prefix(bindings.drop_last(), m, register, space, ty);
    } else {
        assert(bindings.take(m) =~= bindings);
    }
}

proof fn lemma_first_table_prefix(tables: Seq<Seq<DescriptorBinding>>, m: int, register: u32, space: u32, ty: DescriptorType)
    requires
        0 <= m <= tables.len(),
        first_table(tables.take(m), register, space, ty) is Some,
    ensures
        first_table(tables, register, space, ty) == first_table(tables.take(m), register, space, ty),
    decreases tables.len(),
{
    if m < tables.len() {
        assert(tables.drop_last().take(m) =~= tables.take(m));
        lemma_first_table_prefix(tables.drop_last(), m, register, space, ty);
    } else {
        assert(tables.take(m) =~= tables);
    }
}

proof fn lemma_table_keys_contains(bindings: Seq<DescriptorBinding>, j: int)
    requires
        0 <= j < bindings.len(),
    ensures
        table_keys(bindings).contains(table_key(bindings[j])),
    decreases bindings.len(),
{
    let earlier: Seq<TableKey> = table_keys(bindings.drop_last());
    let last_key: TableKey = table_key(bindings.last());
    if j < bindings.len() - 1 {
        lemma_table_keys_contains(bindings.drop_last(), j);
        assert(bindings.drop_last()[j] == bindings[j]);
        let idx: int = choose|idx: int| 0 <= idx < earlier.len() && earlier[idx] == table_key(bindings[j]);
        if !earlier.contains(last_key) {
            assert(earlier.push(last_key)[idx] == table_key(bindings[j]));
        }
    } else if !earlier.contains(last_key) {
        assert(earlier.push(last_key)[earlier.len() as int] == last_key);
    }
}

proof fn lemma_first_binding_found(bindings: Seq<DescriptorBinding>, k: int, register: u32, space: u32, ty: DescriptorType)
    requires
        0 <= k < bindings.len(),
        binding_binds(bindings[k], register, space, ty),
    ensures
        first_binding(bindings, register, space, ty) is Some,
    decreases bindings.len(),
{
    if k < bindings.len() - 1 {
        lemma_first_binding_found(bindings.drop_last(), k, register, space, ty);
    }
}

proof fn lemma_first_binding_binds(bindings: Seq<DescriptorBinding>, register: u32, space: u32, ty: DescriptorType)
    ensures
        first_binding(bindings, register, space, ty) matches Some(k) ==> k < bindings.len()
            && binding_binds(bindings[k as int], register, space, ty),
    decreases bindings.len(),
{
    if bindings.len() > 0 {
        lemma_first_binding_binds(bindings.drop_last(), register, space, ty);
    }
}

proof fn lemma_first_table_found(tables: Seq<Seq<DescriptorBinding>>, t: int, register: u32, space: u32, ty: DescriptorType)
    requires
        0 <= t < tables.len(),
        first_binding(tables[t], register, space, ty) is Some,
    ensures
        first_table(tables, register, space, ty) matches Some(u) && u <= t,
    decreases tables.len(),
{
    if t < tables.len() - 1 {
        assert(tables.drop_last()[t] == tables[t]);
        lemma_first_table_found(tables.drop_last(), t, register, space, ty);
    } else {
        assert(tables.last() == tables[t]);
        match first_table(tables.drop_last(), register, space, ty) {
            Some(u) => {
                lemma_first_table_holds(tables.drop_last(), register, space, ty);
            },
            None => {},
        }
    }
}

proof fn lemma_first_table_holds(tables: Seq<Seq<DescriptorBinding>>, register: u32, space: u32, ty: DescriptorType)
    ensures
        first_table(tables, register, space, ty) matches Some(t) ==> t < tables.len()
            && first_binding(tables[t as int], register, space, ty) is Some,
    decreases tables.len(),
{
    if tables.len() > 0 {
        lemma_first_table_holds(tables.drop_last(), register, space, ty);
    }
}

proof fn lemma_last_push_found(push: Seq<PushConstantInfo>, i: int, register: u32, space: u32)
    requires
        0 <= i < push.len(),
        push_binds(push[i], register, space),
    ensures
        last_push(push, register, space) matches Some(f) && i <= f < push.len() && push_binds(push[f as int], register, space),
    decreases push.len(),
{
    if i < push.len() - 1 && !push_binds(push.last(), register, space) {
        lemma_last_push_found(push.drop_last(), i, register, space);
    }
}

/// Every push constant block a layout declares is bound: looking up its register and space
/// finds a push constant slot declaring that register and space, at or after its own (the last
/// block declared for a register wins).
pub proof fn lemma_push_constants_are_bound(push: Seq<PushConstantInfo>, tables: Seq<Seq<DescriptorBinding>>, i: int)
    requires
        0 <= i < push.len(),
        push.len() <= u32::MAX,
    ensures
        slot_of(push, tables, push[i].shader_register, push[i].register_space, DescriptorType::PushConstants)
            matches Some(slot) && i <= slot.index < push.len() && push_binds(push[slot.index as int],
            push[i].shader_register, push[i].register_space) && slot.count == Some(push[slot.index as int].num_values),
{
    lemma_last_push_found(push, i, push[i].shader_register, push[i].register_space);
}

/// Every descriptor binding of a layout built from `bindings` is bound: looking up its
/// register, space and type finds a descriptor table slot, after the push constants, whose
/// table holds a binding of that register, space and type.
pub proof fn lemma_bindings_are_bound(push: Seq<PushConstantInfo>, bindings: Seq<DescriptorBinding>, j: int)
    requires
        0 <= j < bindings.len(),
        bindings[j].binding_type != DescriptorType::PushConstants,
        push.len() + bindings.len() <= u32::MAX,
    ensures
        ({
            let b: DescriptorBinding = bindings[j];
            let tables: Seq<Seq<DescriptorBinding>> = tables_of(bindings, table_keys(bindings));
            slot_of(push, tables, b.shader_register, b.register_space, b.binding_type) matches Some(slot)
                && push.len() <= slot.index < push.len() + tables.len()
                && exists|k: int| 0 <= k < tables[slot.index - push.len()].len()
                    && binding_binds(#[trigger] tables[slot.index - push.len()][k], b.shader_register,
                        b.register_space, b.binding_type)
        }),
{
    let b: DescriptorBinding = bindings[j];
    let keys: Seq<TableKey> = table_keys(bindings);
    let tables: Seq<Seq<DescriptorBinding>> = tables_of(bindings, keys);
    let pred = |x: DescriptorBinding| table_key(x) == table_key(b);
    lemma_table_keys_contains(bindings, j);
    lemma_table_keys_len(bindings);
    let t0: int = choose|t0: int| 0 <= t0 < keys.len() && keys[t0] == table_key(b);
    assert(tables[t0] == bindings.filter(pred));
    bindings.lemma_filter_contains(pred, j);
    assert(tables[t0].contains(b));
    let k0: int = choose|k0: int| 0 <= k0 < tables[t0].len() && tables[t0][k0] == b;
    lemma_first_binding_found(tables[t0], k0, b.shader_register, b.register_space, b.binding_type);
    lemma_first_table_found(tables, t0, b.shader_register, b.register_space, b.binding_type);
    lemma_first_table_holds(tables, b.shader_register, b.register_space, b.binding_type);
    let t: nat = first_table(tables, b.shader_register, b.register_space, b.binding_type)->0;
    lemma_first_binding_binds(tables[t as int], b.shader_register, b.register_space, b.binding_type);
    let k: nat = first_binding(tables[t as int], b.shader_register, b.register_space, b.binding_type)->0;
    assert(binding_binds(tables[t as int][k as int], b.shader_register, b.register_space, b.binding_type));
    assert(t < keys.len() && keys.len() <= bindings.len());
    let slot: PipelineSlotInfo = slot_of(push, tables, b.shader_register, b.register_space, b.binding_type)->0;
    assert(slot.index == push.len() + t);
    assert(slot.index - push.len() == t);
    assert(exists|k2: int| 0 <= k2 < tables[slot.index - push.len()].len()
        && binding_binds(#[trigger] tables[slot.index - push.len()][k2], b.shader_register, b.register_space,
            b.binding_type)) by {
        assert(binding_binds(tables[slot.index - push.len()][k as int], b.shader_register, b.register_space,
            b.binding_type));
    }
}

/// A descriptor table of a root signature and the bindings whose ranges it holds. The
/// table's root parameter is visible to all shader stages, whatever its bindings declare.
pub struct DescriptorTable {
    pub key: TableKey,
    pub bindings: Vec<DescriptorBinding>,
}

/// Root parameters of a root signature and the slot lookup over them.
pub struct RootSignatureLayout {
    push_constants: Vec<PushConstantInfo>,
    tables: Vec<DescriptorTable>,
}

fn contains_key(keys: &Vec<TableKey>, key: TableKey) -> (found: bool)
    ensures
        found == keys@.contains(key),
{
    let mut i: usize = 0;
    while i < keys.len()
        invariant
            i <= keys@.len(),
            forall|j: int| 0 <= j < i ==> keys@[j] != key,
        decreases keys@.len() - i,
    {
        if keys[i] == key {
            assert(keys@[i as int] == key);
            return true;
        }
        i = i + 1;
    }
    false
}

fn bindings_with_key(bindings: &Vec<DescriptorBinding>, key: TableKey) -> (table: Vec<DescriptorBinding>)
    ensures
        table@ == table_bindings(bindings@, key),
{
    let mut table: Vec<DescriptorBinding> = Vec::new();
    let mut j: usize = 0;
    while j < bindings.len()
        invariant
            j <= bindings@.len(),
            table@ == table_bindings(bindings@.take(j as int), key),
        decreases bindings@.len() - j,
    {
        let b: DescriptorBinding = bindings[j];
        proof {
            assert(bindings@.take(j + 1) =~= bindings@.take(j as int).push(b));
            bindings@.take(j as int).lemma_filter_push(b, |x: DescriptorBinding| table_key(x) == key);
        }
        if b.visibility == key.visibility && b.shader_register == key.shader_register
            && b.binding_type == key.binding_type {
            table.push(b);
        }
        j = j + 1;
    }
    assert(bindings@.take(bindings@.len() as int) =~= bindings@);
    table
}

impl RootSignatureLayout {
    /// The push constants, root parameters `0..n`.
    pub closed spec fn push(&self) -> Seq<PushConstantInfo> {
        self.push_constants@
    }

    /// The keys of the descriptor tables, root parameters after the push constants.
    pub closed spec fn keys(&self) -> Seq<TableKey> {
        self.tables@.map_values(|t: DescriptorTable| t.key)
    }

    /// The bindings of each descriptor table.
    pub closed spec fn tables(&self) -> Seq<Seq<DescriptorBinding>> {
        self.tables@.map_values(|t: DescriptorTable| t.bindings@)
    }

    /// Every root parameter slot fits a `u32`.
    pub open spec fn wf(&self) -> bool {
        self.push().len() + self.tables().len() <= u32::MAX
    }

    /// Lays out a root signature: the push constants in order, then a table for each group of
    /// bindings sharing visibility, register and type, in order of first appearance (any
    /// order serves, since bindings find their table through `get_pipeline_slot`). Every root
    /// parameter slot must fit a `u32`.
    pub fn build(push_constants: &Vec<PushConstantInfo>, bindings: &Vec<DescriptorBinding>) -> (layout: RootSignatureLayout)
        requires
            push_constants@.len() + bindings@.len() <= u32::MAX,
        ensures
            layout.wf(),
            layout.push() == push_constants@,
            layout.keys() == table_keys(bindings@),
            layout.tables() == tables_of(bindings@, table_keys(bindings@)),
    {
        let mut push: Vec<PushConstantInfo> = Vec::new();
        let mut i: usize = 0;
        while i < push_constants.len()
            invariant
                i <= push_constants@.len(),
                push@ == push_constants@.take(i as int),
            decreases push_constants@.len() - i,
        {
            push.push(push_constants[i]);
            i = i + 1;
            assert(push@ =~= push_constants@.take(i as int));
        }
        assert(push@ =~= push_constants@);

        let mut keys: Vec<TableKey> = Vec::new();
        let mut j: usize = 0;
        while j < bindings.len()
            invariant
                j <= bindings@.len(),
                keys@ == table_keys(bindings@.take(j as int)),
            decreases bindings@.len() - j,
        {
            let key = TableKey {
                visibility: bindings[j].visibility,
                shader_register: bindings[j].shader_register,
                binding_type: bindings[j].binding_type,
            };
            proof {
                let next: Seq<DescriptorBinding> = bindings@.take(j + 1);
                assert(next.drop_last() =~= bindings@.take(j as int));
                assert(next.last() == bindings@[j as int]);
            }
            if !contains_key(&keys, key) {
                keys.push(key);
            }
            j = j + 1;
        }
        assert(bindings@.take(bindings@.len() as int) =~= bindings@);
        proof {
            lemma_table_keys_len(bindings@);
        }

        let ghost all_keys: Seq<TableKey> = keys@;
        let mut tables: Vec<DescriptorTable> = Vec::new();
        let mut t: usize = 0;
        while t < keys.len()
            invariant
                t <= keys@.len(),
                keys@ == all_keys,
                tables@.map_values(|d: DescriptorTable| d.key) == all_keys.take(t as int),
                tables@.map_values(|d: DescriptorTable| d.bindings@) == tables_of(bindings@, all_keys.take(t as int)),
            decreases keys@.len() - t,
        {
            let key: TableKey = keys[t];
            let table_bindings_t: Vec<DescriptorBinding> = bindings_with_key(bindings, key);
            let ghost before: Seq<DescriptorTable> = tables@;
            tables.push(DescriptorTable { key, bindings: table_bindings_t });
            proof {
                assert(key == all_keys[t as int]);
                assert(tables@ == before.push(DescriptorTable { key, bindings: table_bindings_t }));
                assert(tables@.map_values(|d: DescriptorTable| d.key) =~= all_keys.take(t + 1));
                let got: Seq<Seq<DescriptorBinding>> = tables@.map_values(|d: DescriptorTable| d.bindings@);
                let want: Seq<Seq<DescriptorBinding>> = tables_of(bindings@, all_keys.take(t + 1));
                assert forall|u: int| 0 <= u < t + 1 implies #[trigger] got[u] == want[u] by {
                    if u < t {
                        assert(got[u] == before.map_values(|d: DescriptorTable| d.bindings@)[u]);
                        assert(want[u] == tables_of(bindings@, all_keys.take(t as int))[u]);
                    } else {
                        assert(got[u] == table_bindings_t@);
                        assert(want[u] == table_bindings(bindings@, all_keys[t as int]));
                    }
                }
                assert(got =~= want);
            }
            t = t + 1;
        }
        assert(all_keys.take(keys@.len() as int) =~= all_keys);
        RootSignatureLayout { push_constants: push, tables }
    }

    /// Root parameters of the signature: a push constant block each, then a table each.
    pub fn num_root_parameters(&self) -> (count: usize)
        requires
            self.wf(),
        ensures
            count == self.push().len() + self.tables().len(),
    {
        self.push_constants.len() + self.tables.len()
    }

    /// Root parameter slots of the descriptor tables: those after the push constants.
    pub fn descriptor_slots(&self) -> (slots: Vec<u32>)
        requires
            self.wf(),
        ensures
            slots@.len() == self.tables().len(),
            forall|t: int| 0 <= t < slots@.len() ==> #[trigger] slots@[t] == self.push().len() + t,
    {
        let first: usize = self.push_constants.len();
        let mut slots: Vec<u32> = Vec::new();
        let mut t: usize = 0;
        while t < self.tables.len()
            invariant
                self.wf(),
                first == self.push().len(),
                t <= self.tables().len(),
                self.tables().len() == self.tables@.len(),
                slots@.len() == t,
                forall|u: int| 0 <= u < t ==> #[trigger] slots@[u] == first + u,
            decreases self.tables@.len() - t,
        {
            slots.push((first + t) as u32);
            t = t + 1;
        }
        slots
    }

    /// The slot `register` in `space` of type `ty` is bound through (see `slot_of`), or
    /// `None` when the signature does not bind it.
    pub fn get_pipeline_slot(&self, register: u32, space: u32, ty: DescriptorType) -> (slot: Option<PipelineSlotInfo>)
        requires
            self.wf(),
        ensures
            slot == slot_of(self.push(), self.tables(), register, space, ty),
    {
        if ty == DescriptorType::PushConstants {
            let mut found: Option<usize> = None;
            let mut i: usize = 0;
            while i < self.push_constants.len()
                invariant
                    i <= self.push().len(),
                    self.push() == self.push_constants@,
                    match found {
                        Some(f) => last_push(self.push().take(i as int), register, space) == Some(f as nat),
                        None => last_push(self.push().take(i as int), register, space) is None,
                    },
                decreases self.push_constants@.len() - i,
            {
                let p: PushConstantInfo = self.push_constants[i];
                proof {
                    let next: Seq<PushConstantInfo> = self.push().take(i + 1);
                    assert(next.drop_last() =~= self.push().take(i as int));
                    assert(next.last() == p);
                }
                if p.shader_register == register && p.register_space == space {
                    found = Some(i);
                }
                i = i + 1;
            }
            assert(self.push().take(self.push().len() as int) =~= self.push());
            proof {
                lemma_last_push_in_range(self.push(), register, space);
            }
            match found {
                Some(f) => Some(PipelineSlotInfo { index: f as u32, count: Some(self.push_constants[f].num_values) }),
                None => None,
            }
        } else {
            let first: usize = self.push_constants.len();
            let mut t: usize = 0;
            while t < self.tables.len()
                invariant
                    self.wf(),
                    ty != DescriptorType::PushConstants,
                    first == self.push().len(),
                    t <= self.tables@.len(),
                    self.tables().len() == self.tables@.len(),
                    first_table(self.tables().take(t as int), register, space, ty) is None,
                decreases self.tables@.len() - t,
            {
                let table: &Vec<DescriptorBinding> = &self.tables[t].bindings;
                assert(table@ == self.tables()[t as int]);
                let mut k: usize = 0;
                while k < table.len()
                    invariant
                        self.wf(),
                        ty != DescriptorType::PushConstants,
                        first == self.push().len(),
                        t < self.tables@.len(),
                        self.tables().len() == self.tables@.len(),
                        table@ == self.tables()[t as int],
                        first_table(self.tables().take(t as int), register, space, ty) is None,
                        k <= table@.len(),
                        first_binding(table@.take(k as int), register, space, ty) is None,
                    decreases table@.len() - k,
                {
                    let b: DescriptorBinding = table[k];
                    proof {
                        let next: Seq<DescriptorBinding> = table@.take(k + 1);
                        assert(next.drop_last() =~= table@.take(k as int));
                        assert(next.last() == b);
                    }
                    if b.shader_register == register && b.register_space == space && b.binding_type == ty {
                        proof {
                            assert(binding_binds(b, register, space, ty));
                            assert(first_binding(table@.take(k + 1), register, space, ty) == Some(k as nat));
                            lemma_first_binding_prefix(table@, k + 1, register, space, ty);
                            assert(first_binding(table@, register, space, ty) == Some(k as nat));
                            let tables: Seq<Seq<DescriptorBinding>> = self.tables();
                            assert(tables.take(t + 1).drop_last() =~= tables.take(t as int));
                            assert(tables.take(t + 1).last() == table@);
                            assert(first_table(tables.take(t + 1), register, space, ty) == Some(t as nat));
                            lemma_first_table_prefix(tables, t + 1, register, space, ty);
                            assert(first_table(tables, register, space, ty) == Some(t as nat));
                            assert(tables[t as int][k as int] == b);
                        }
                        return Some(PipelineSlotInfo { index: (first + t) as u32, count: b.num_descriptors });
                    }
                    k = k + 1;
                }
                proof {
                    assert(table@.take(table@.len() as int) =~= table@);
                    let tables: Seq<Seq<DescriptorBinding>> = self.tables();
                    assert(tables.take(t + 1).drop_last() =~= tables.take(t as int));
                    assert(tables.take(t + 1).last() == table@);
                }
                t = t + 1;
            }
            assert(self.tables().take(self.tables().len() as int) =~= self.tables());
            None
        }
    }
}

pub const D3D12_DESCRIPTOR_RANGE_TYPE_SRV: i32 = 0;
pub const D3D12_DESCRIPTOR_RANGE_TYPE_UAV: i32 = 1;
pub const D3D12_DESCRIPTOR_RANGE_TYPE_CBV: i32 = 2;
pub const D3D12_DESCRIPTOR_RANGE_TYPE_SAMPLER: i32 = 3;

/// The D3D12 descriptor range type of a descriptor binding type.
pub open spec fn d3d12_descriptor_range_type(ty: DescriptorType) -> i32 {
    match ty {
        DescriptorType::ShaderResource => D3D12_DESCRIPTOR_RANGE_TYPE_SRV,
        DescriptorType::UnorderedAccess => D3D12_DESCRIPTOR_RANGE_TYPE_UAV,
        DescriptorType::ConstantBuffer => D3D12_DESCRIPTOR_RANGE_TYPE_CBV,
        _ => D3D12_DESCRIPTOR_RANGE_TYPE_SAMPLER,
    }
}

/// Converts a descriptor binding type to the D3D12 descriptor range type. Push constants are
/// root constants, not descriptor ranges.
pub fn to_d3d12_descriptor_range_type(ty: DescriptorType) -> (range_type: i32)
    requires
        ty != DescriptorType::PushConstants,
    ensures
        range_type == d3d12_descriptor_range_type(ty),
{
    match ty {
        DescriptorType::ShaderResource => D3D12_DESCRIPTOR_RANGE_TYPE_SRV,
        DescriptorType::UnorderedAccess => D3D12_DESCRIPTOR_RANGE_TYPE_UAV,
        DescriptorType::ConstantBuffer => D3D12_DESCRIPTOR_RANGE_TYPE_CBV,
        _ => D3D12_DESCRIPTOR_RANGE_TYPE_SAMPLER,
    }
}

/// Descriptors in the range of a binding: its count, or `u32::MAX` for an unbounded range.
pub fn range_descriptor_count(num_descriptors: Option<u32>) -> (count: u32)
    ensures
        count == match num_descriptors {
            Some(n) => n,
            None => u32::MAX,
        },
{
    match num_descriptors {
        Some(n) => n,
        None => u32::MAX,
    }
}

} // verus!
