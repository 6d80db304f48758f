//! Storage for shader uniform values shared by every program of the pipeline: named slots,
//! handles to them, and tracking of which slots changed since the last flush.
use vstd::prelude::*;
use bitvec::order::Lsb0;
use bitvec::vec::BitVec;
use indexmap::IndexMap;
use rustc_hash::FxBuildHasher;
use core::marker::PhantomData;

verus! {

#[verifier::external_type_specification]
#[verifier::external_body]
#[verifier::reject_recursive_types(K)]
#[verifier::reject_recursive_types(V)]
#[verifier::reject_recursive_types(S)]
pub struct ExIndexMap<K, V, S>(IndexMap<K, V, S>);

#[verifier::external_type_specification]
#[verifier::external_body]
pub struct ExFxBuildHasher(FxBuildHasher);

/// A bit vector, one bit per slot, held behind a private field because its declaration
/// needs trait bounds of the bit-vector crate that cannot be declared here.
#[verifier::external_body]
pub struct DirtyBits {
    bits: BitVec<usize, Lsb0>,
}

/// The value used for a program that has no location for a uniform.
pub const NO_LOCATION: u32 = u32::MAX;

/// The handle value that stands for "no slot".
pub const NULL_HANDLE: u16 = u16::MAX;

/// The number of scalars a uniform value can hold at most (a 4x4 matrix).
pub const MAX_SCALARS: usize = 16;

/// The kind of data a uniform holds.
#[derive(Clone, Copy, Debug, PartialEq, Eq, Structural)]
pub enum UniformKind {
    F32,
    Vec2,
    Vec3,
    Vec4,
    U32,
    UVec2,
    UVec3,
    UVec4,
    I32,
    IVec2,
    IVec3,
    IVec4,
    Mat2,
    Mat3,
    Mat4,
}

/// The number of 32-bit scalars in a value of each kind.
pub open spec fn spec_scalar_count(k: UniformKind) -> nat {
    match k {
        UniformKind::F32 | UniformKind::U32 | UniformKind::I32 => 1,
        UniformKind::Vec2 | UniformKind::UVec2 | UniformKind::IVec2 => 2,
        UniformKind::Vec3 | UniformKind::UVec3 | UniformKind::IVec3 => 3,
        UniformKind::Vec4 | UniformKind::UVec4 | UniformKind::IVec4 | UniformKind::Mat2 => 4,
        UniformKind::Mat3 => 9,
        UniformKind::Mat4 => 16,
    }
}

impl UniformKind {
    /// The number of 32-bit scalars in a value of this kind.
    pub fn scalar_count(self) -> (r: usize)
        ensures
            r == spec_scalar_count(self),
            1 <= r <= MAX_SCALARS,
    {
        match self {
            UniformKind::F32 | UniformKind::U32 | UniformKind::I32 => 1,
            UniformKind::Vec2 | UniformKind::UVec2 | UniformKind::IVec2 => 2,
            UniformKind::Vec3 | UniformKind::UVec3 | UniformKind::IVec3 => 3,
            UniformKind::Vec4 | UniformKind::UVec4 | UniformKind::IVec4 | UniformKind::Mat2 => 4,
            UniformKind::Mat3 => 9,
            UniformKind::Mat4 => 16,
        }
    }
}

/// A uniform value: its kind and the bit patterns of its 32-bit scalars, unused ones zero.
#[derive(Clone, Copy, Debug, PartialEq, Eq)]
pub struct UniformValue {
    pub kind: UniformKind,
    pub scalars: [u32; 16],
}

impl UniformValue {
    /// The all-zero value of a kind.
    pub fn zeroed(kind: UniformKind) -> (r: Self)
        ensures
            r.kind == kind,
            forall|i: int| 0 <= i < 16 ==> #[trigger] r.scalars@[i] == 0,
    {
        UniformValue { kind, scalars: [0u32; 16] }
    }

    /// Whether two values have the same kind and the same bits: the equality of integer
    /// uniforms.
    pub fn bits_equal(&self, other: &UniformValue) -> (r: bool)
        ensures
            r == (self.kind == other.kind && self.scalars@ == other.scalars@),
    {
        if self.kind != other.kind {
            return false;
        }
        let mut i: usize = 0;
        while i < MAX_SCALARS
            invariant
                i <= MAX_SCALARS,
                forall|j: int| 0 <= j < i ==> self.scalars@[j] == other.scalars@[j],
            decreases MAX_SCALARS - i,
        {
            if self.scalars[i] != other.scalars[i] {
                return false;
            }
            i = i + 1;
        }
        assert(self.scalars@ =~= other.scalars@);
        true
    }
}

/// Error writing to a uniform slot.
#[derive(Clone, Copy, Debug, PartialEq, Eq, Structural)]
pub enum StoreError {
    /// The slot holds data of another kind: `expected` is the slot's kind.
    WrongType { expected: UniformKind },
}

/// Error obtaining a slot handle.
#[derive(Clone, Copy, Debug, PartialEq, Eq, Structural)]
pub enum SlotError {
    /// The slot's index does not fit in a 16-bit handle.
    Overflow,
}

/// The storage of one uniform: its current value and its location in each program.
pub struct UniformSlot {
    current: UniformValue,
    ids: Vec<u32>,
}

impl UniformSlot {
    /// A slot of the given kind for `num_programs` programs, with a zero value and every
    /// location zero.
    pub fn zeroed(kind: UniformKind, num_programs: usize) -> (r: Self)
        ensures
            r.spec_current().kind == kind,
            forall|i: int| 0 <= i < 16 ==> #[trigger] r.spec_current().scalars@[i] == 0,
            r.spec_ids() == Seq::new(num_programs as nat, |k: int| 0u32),
    {
        let mut ids: Vec<u32> = Vec::new();
        let mut k: usize = 0;
        while k < num_programs
            invariant
                k <= num_programs,
                ids@ =~= Seq::new(k as nat, |j: int| 0u32),
            decreases num_programs - k,
        {
            ids.push(0u32);
            k = k + 1;
        }
        UniformSlot { current: UniformValue::zeroed(kind), ids }
    }

    /// The current value of the slot.
    pub closed spec fn spec_current(&self) -> UniformValue {
        self.current
    }

    /// The location of the uniform in each program, `NO_LOCATION` where it has none.
    pub closed spec fn spec_ids(&self) -> Seq<u32> {
        self.ids@
    }

    /// Mutable access to the current value of the slot.
    pub fn current(&mut self) -> (r: &mut UniformValue)
        ensures
            *r == old(self).spec_current(),
            final(self).spec_ids() == old(self).spec_ids(),
            final(self).spec_current() == *final(r),
    {
        &mut self.current
    }
}

/// A typed handle to a uniform slot, or the null handle, writes to which do nothing.
#[derive(Debug)]
pub struct SlotHandle<T>(u16, PhantomData<T>);

impl<T> SlotHandle<T> {
    /// The slot index of the handle.
    pub closed spec fn spec_index(&self) -> u16 {
        self.0
    }

    /// Whether the handle is the null handle, which points to no slot.
    pub fn is_null(&self) -> (r: bool)
        ensures
            r == (self.spec_index() == NULL_HANDLE),
    {
        self.0 == NULL_HANDLE
    }

    /// The slot index of the handle.
    pub fn index(&self) -> (r: u16)
        ensures
            r == self.spec_index(),
    {
        self.0
    }
}

impl<T> Clone for SlotHandle<T> {
    fn clone(&self) -> (r: Self)
        ensures
            r.spec_index() == self.spec_index(),
    {
        SlotHandle(self.0, PhantomData)
    }
}

impl<T> Copy for SlotHandle<T> {
}

/// The type of the map from uniform names to slots.
pub type SlotMap = IndexMap<String, UniformSlot, FxBuildHasher>;

/// Name for what an insertion-ordered map of slots holds: its entries in order.
pub uninterp spec fn slot_map_entries(m: SlotMap) -> Seq<(Seq<char>, UniformSlot)>;

/// Name for what a bit vector holds: its bits in order.
pub uninterp spec fn bit_vec_bits(b: DirtyBits) -> Seq<bool>;

/// Calls `IndexMap::default`. Trusted: the new map holds no entries.
#[verifier::external_body]
fn slot_map_new() -> (r: SlotMap)
    ensures
        slot_map_entries(r) == Seq::<(Seq<char>, UniformSlot)>::empty(),
{
    IndexMap::default()
}

/// Calls `IndexMap::len`. Trusted: the result is the number of entries.
#[verifier::external_body]
fn slot_map_len(m: &SlotMap) -> (r: usize)
    ensures
        r == slot_map_entries(*m).len(),
{
    m.len()
}

/// Calls `IndexMap::get_index_of`. Trusted: the result is the position of an entry whose key
/// equals `key`, or `None` when no entry has that key.
#[verifier::external_body]
fn slot_map_get_index_of(m: &SlotMap, key: &String) -> (r: Option<usize>)
    ensures
        match r {
            Some(i) => i < slot_map_entries(*m).len() && slot_map_entries(*m)[i as int].0 == key@,
            None => forall|j: int|
                0 <= j < slot_map_entries(*m).len() ==> #[trigger] slot_map_entries(*m)[j].0 != key@,
        },
{
    m.get_index_of(key)
}

/// Calls `IndexMap::insert_full` with a key that the map does not hold. Trusted: the entry is
/// appended last, and its index, the old length, is returned.
#[verifier::external_body]
fn slot_map_insert_new(m: &mut SlotMap, key: String, value: UniformSlot) -> (r: usize)
    requires
        forall|j: int|
            0 <= j < slot_map_entries(*old(m)).len() ==> #[trigger] slot_map_entries(*old(m))[j].0
                != key@,
    ensures
        r == slot_map_entries(*old(m)).len(),
        slot_map_entries(*final(m)) == slot_map_entries(*old(m)).push((key@, value)),
{
    m.insert_full(key, value).0
}

/// Calls `Index<usize>::index` of `IndexMap`. Trusted: the result is the value of the entry at
/// position `i`.
#[verifier::external_body]
fn slot_map_value(m: &SlotMap, i: usize) -> (r: &UniformSlot)
    requires
        i < slot_map_entries(*m).len(),
    ensures
        *r == slot_map_entries(*m)[i as int].1,
{
    &m[i]
}

/// Calls `IndexMut<usize>::index_mut` of `IndexMap`. Trusted: the result is the value of the
/// entry at position `i`, and whatever it is changed to becomes that entry's value, its key
/// and the other entries staying as they were.
#[verifier::external_body]
fn slot_map_value_mut(m: &mut SlotMap, i: usize) -> (r: &mut UniformSlot)
    requires
        i < slot_map_entries(*old(m)).len(),
    ensures
        *r == slot_map_entries(*old(m))[i as int].1,
        slot_map_entries(*final(m)) == slot_map_entries(*old(m)).update(
            i as int,
            (slot_map_entries(*old(m))[i as int].0, *final(r)),
        ),
{
    &mut m[i]
}

/// Calls `BitVec::new`. Trusted: the new vector holds no bits.
#[verifier::external_body]
fn bits_new() -> (r: DirtyBits)
    ensures
        bit_vec_bits(r) == Seq::<bool>::empty(),
{
    DirtyBits { bits: BitVec::new() }
}

/// Calls `BitVec::push`. Trusted: the bit is appended; the vector must stay within the
/// length the bit vector can encode.
#[verifier::external_body]
fn bits_push(b: &mut DirtyBits, value: bool)
    requires
        bit_vec_bits(*old(b)).len() + 1 <= usize::MAX / 8,
    ensures
        bit_vec_bits(*final(b)) == bit_vec_bits(*old(b)).push(value),
{
    b.bits.push(value)
}

/// Calls `BitSlice::set`. Trusted: only the bit at `i` changes, to `value`.
#[verifier::external_body]
fn bits_set(b: &mut DirtyBits, i: usize, value: bool)
    requires
        i < bit_vec_bits(*old(b)).len(),
    ensures
        bit_vec_bits(*final(b)) == bit_vec_bits(*old(b)).update(i as int, value),
{
    b.bits.set(i, value)
}

/// Calls `BitSlice::fill`. Trusted: every bit becomes `value`, the length stays.
#[verifier::external_body]
fn bits_fill(b: &mut DirtyBits, value: bool)
    ensures
        bit_vec_bits(*final(b)).len() == bit_vec_bits(*old(b)).len(),
        forall|i: int| 0 <= i < bit_vec_bits(*old(b)).len() ==> #[trigger] bit_vec_bits(*final(b))[i] == value,
{
    b.bits.fill(value)
}

/// Calls `BitSlice::iter_ones` and collects the indices. Trusted: the result lists, in
/// increasing order, exactly the indices of the set bits.
#[verifier::external_body]
fn bits_ones(b: &DirtyBits) -> (r: Vec<usize>)
    ensures
        forall|i: int, j: int| 0 <= i < j < r@.len() ==> r@[i] < r@[j],
        forall|i: int| 0 <= i < r@.len() ==> #[trigger] r@[i] < bit_vec_bits(*b).len() && bit_vec_bits(*b)[r@[i] as int],
        forall|k: int| 0 <= k < bit_vec_bits(*b).len() && #[trigger] bit_vec_bits(*b)[k] ==> r@.contains(k as usize),
{
    b.bits.iter_ones().collect()
}

/// What a slot holds, as the storage's contracts see it.
pub struct SlotView {
    pub name: Seq<char>,
    pub current: UniformValue,
    pub ids: Seq<u32>,
}

/// What the storage holds: its slots in order, one dirty bit per slot, the number of
/// programs, and whether anything changed since the last flush.
pub struct UniformStorageView {
    pub slots: Seq<SlotView>,
    pub dirty: Seq<bool>,
    pub num_programs: nat,
    pub is_dirty: bool,
}

/// The view of an entry of the slot map.
pub open spec fn spec_slot_view(e: (Seq<char>, UniformSlot)) -> SlotView {
    SlotView { name: e.0, current: e.1.spec_current(), ids: e.1.spec_ids() }
}

/// The locations of a new slot: the given location for each program that has one listed,
/// zero for the rest.
pub open spec fn spec_slot_ids(num_programs: nat, locations: Seq<u32>) -> Seq<u32> {
    Seq::new(num_programs, |k: int| if k < locations.len() { locations[k] } else { 0u32 })
}

/// A new slot is null when none of the programs that a location is listed for has the uniform.
pub open spec fn spec_slot_is_null(num_programs: nat, locations: Seq<u32>) -> bool {
    forall|k: int| 0 <= k < num_programs && k < locations.len() ==> #[trigger] locations[k] == NO_LOCATION
}

/// The position of the slot named `name`, if there is one.
pub open spec fn spec_find(v: UniformStorageView, name: Seq<char>) -> Option<nat> {
    if exists|i: int| 0 <= i < v.slots.len() && #[trigger] v.slots[i].name == name {
        Some((choose|i: int| 0 <= i < v.slots.len() && #[trigger] v.slots[i].name == name) as nat)
    } else {
        None
    }
}

/// The storage after the slot at `s` took `value` as its current value and was marked dirty.
pub open spec fn spec_stored(v: UniformStorageView, s: int, value: UniformValue) -> UniformStorageView {
    UniformStorageView {
        slots: v.slots.update(s, SlotView { name: v.slots[s].name, current: value, ids: v.slots[s].ids }),
        dirty: v.dirty.update(s, true),
        num_programs: v.num_programs,
        is_dirty: true,
    }
}

/// The writes that flushing the first `k` slots for program `n` makes: for each dirty slot in
/// order whose uniform the program has, its location and current value.
pub open spec fn spec_flush_prefix(v: UniformStorageView, n: int, k: int) -> Seq<(u32, UniformValue)>
    decreases k,
{
    if k <= 0 {
        Seq::empty()
    } else {
        let prev = spec_flush_prefix(v, n, k - 1);
        let slot = v.slots[k - 1];
        if v.dirty[k - 1] && slot.ids[n] != NO_LOCATION {
            prev.push((slot.ids[n], slot.current))
        } else {
            prev
        }
    }
}

/// The writes that flushing for program `n` makes: none when nothing changed or when there
/// is no `n`-th program, else those of every dirty slot in order.
pub open spec fn spec_flush(v: UniformStorageView, n: int) -> Seq<(u32, UniformValue)> {
    if !v.is_dirty || !(0 <= n < v.num_programs) {
        Seq::empty()
    } else {
        spec_flush_prefix(v, n, v.slots.len() as int)
    }
}

/// Flushing a range of slots with no dirty bit adds no writes.
proof fn lemma_flush_skip_clean(v: UniformStorageView, n: int, a: int, b: int)
    requires
        0 <= a <= b <= v.dirty.len(),
        forall|k: int| a <= k < b ==> !#[trigger] v.dirty[k],
    ensures
        spec_flush_prefix(v, n, b) == spec_flush_prefix(v, n, a),
    decreases b - a,
{
    if a < b {
        lemma_flush_skip_clean(v, n, a, b - 1);
    }
}

/// The zero value of a kind.
pub open spec fn spec_zero_value(kind: UniformKind) -> UniformValue {
    UniformValue { kind, scalars: [0u32, 0, 0, 0, 0, 0, 0, 0, 0, 0, 0, 0, 0, 0, 0, 0] }
}

/// The storage after asking for the slot `name` of `kind` with the given locations, and the
/// handle index or error that the request gives; see `UniformStorage::slot`.
pub open spec fn spec_slot_result(v: UniformStorageView, name: Seq<char>, kind: UniformKind, locations: Seq<u32>) -> (
    UniformStorageView,
    Result<u16, SlotError>,
) {
    match spec_find(v, name) {
        Some(i) => (v, if i < NULL_HANDLE { Ok(i as u16) } else { Err(SlotError::Overflow) }),
        None => if spec_slot_is_null(v.num_programs, locations) {
            (v, Ok(NULL_HANDLE))
        } else {
            (
                UniformStorageView {
                    slots: v.slots.push(
                        SlotView {
                            name,
                            current: spec_zero_value(kind),
                            ids: spec_slot_ids(v.num_programs, locations),
                        },
                    ),
                    dirty: v.dirty.push(false),
                    num_programs: v.num_programs,
                    is_dirty: v.is_dirty,
                },
                if v.slots.len() < NULL_HANDLE {
                    Ok(v.slots.len() as u16)
                } else {
                    Err(SlotError::Overflow)
                },
            )
        },
    }
}

/// Global storage for uniform values across the programs of the pipeline.
pub struct UniformStorage {
    dirty: DirtyBits,
    map: SlotMap,
    num_programs: usize,
    is_dirty: bool,
}

impl View for UniformStorage {
    type V = UniformStorageView;

    closed spec fn view(&self) -> UniformStorageView {
        UniformStorageView {
            slots: slot_map_entries(self.map).map_values(|e: (Seq<char>, UniformSlot)| spec_slot_view(e)),
            dirty: bit_vec_bits(self.dirty),
            num_programs: self.num_programs as nat,
            is_dirty: self.is_dirty,
        }
    }
}

/// The invariant of a storage view: one dirty bit per slot, distinct names, one location
/// per program in every slot, and the dirty flag set exactly when some slot is dirty.
pub open spec fn spec_storage_wf(v: UniformStorageView) -> bool {
    &&& v.dirty.len() == v.slots.len()
    &&& forall|i: int, j: int|
        0 <= i < v.slots.len() && 0 <= j < v.slots.len() && i != j ==> #[trigger] v.slots[i].name
            != #[trigger] v.slots[j].name
    &&& forall|i: int| 0 <= i < v.slots.len() ==> (#[trigger] v.slots[i]).ids.len() == v.num_programs
    &&& v.is_dirty == (exists|i: int| 0 <= i < v.dirty.len() && #[trigger] v.dirty[i])
}

impl UniformStorage {
    /// The storage's invariant.
    pub open spec fn wf(&self) -> bool {
        spec_storage_wf(self@)
    }

    /// Creates an empty storage for `num_programs` programs.
    pub fn new(num_programs: usize) -> (r: Self)
        ensures
            r.wf(),
            r@.slots == Seq::<SlotView>::empty(),
            r@.dirty == Seq::<bool>::empty(),
            r@.num_programs == num_programs,
            !r@.is_dirty,
    {
        let r = UniformStorage { dirty: bits_new(), map: slot_map_new(), num_programs, is_dirty: false };
        assert(r@.slots =~= Seq::<SlotView>::empty());
        r
    }

    /// Returns a handle to the slot of the uniform named `name`, creating the slot, of the given
    /// kind and with the given locations in the programs (`NO_LOCATION` where a program lacks
    /// the uniform), if the name is new. A new name that no listed program uses gives the null
    /// handle and creates nothing. Fails only when the slot's index does not fit a handle.
    pub fn slot<T>(&mut self, name: String, kind: UniformKind, locations: Vec<u32>) -> (r: Result<
        SlotHandle<T>,
        SlotError,
    >)
        requires
            old(self).wf(),
            old(self)@.slots.len() + 1 <= usize::MAX / 8,
        ensures
            final(self).wf(),
            final(self)@ == spec_slot_result(old(self)@, name@, kind, locations@).0,
            match spec_slot_result(old(self)@, name@, kind, locations@).1 {
                Ok(h) => r matches Ok(handle) && handle.spec_index() == h,
                Err(e) => r == Err::<SlotHandle<T>, SlotError>(e),
            },
            ({
                let v = old(self)@;
                let w = final(self)@;
                match spec_find(v, name@) {
                    Some(i) => {
                        &&& w == v
                        &&& v.slots[i as int].name == name@
                        &&& i < NULL_HANDLE ==> (r matches Ok(h) && h.spec_index() == i)
                        &&& i >= NULL_HANDLE ==> r == Err::<SlotHandle<T>, SlotError>(SlotError::Overflow)
                    },
                    None => if spec_slot_is_null(v.num_programs, locations@) {
                        &&& w == v
                        &&& r matches Ok(h) && h.spec_index() == NULL_HANDLE
                    } else {
                        &&& w.slots.len() == v.slots.len() + 1
                        &&& w.slots.drop_last() == v.slots
                        &&& w.slots.last().name == name@
                        &&& w.slots.last().current.kind == kind
                        &&& (forall|k: int| 0 <= k < 16 ==> #[trigger] w.slots.last().current.scalars@[k] == 0)
                        &&& w.slots.last().ids == spec_slot_ids(v.num_programs, locations@)
                        &&& w.dirty == v.dirty.push(false)
                        &&& w.num_programs == v.num_programs
                        &&& w.is_dirty == v.is_dirty
                        &&& v.slots.len() < NULL_HANDLE ==> (r matches Ok(h) && h.spec_index() == v.slots.len())
                        &&& v.slots.len() >= NULL_HANDLE ==> r == Err::<SlotHandle<T>, SlotError>(SlotError::Overflow)
                    },
                }
            }),
    {
        let ghost v = self@;
        let index: usize;
        match slot_map_get_index_of(&self.map, &name) {
            Some(i) => {
                proof {
                    let e = slot_map_entries(self.map);
                    assert(v.slots[i as int].name == name@);
                    let j = choose|j: int| 0 <= j < v.slots.len() && #[trigger] v.slots[j].name == name@;
                    assert(j == i);
                }
                index = i;
            },
            None => {
                proof {
                    assert forall|i: int| 0 <= i < v.slots.len() implies #[trigger] v.slots[i].name != name@ by {
                        assert(slot_map_entries(self.map)[i].0 != name@);
                    }
                }
                let np = self.num_programs;
                let mut ids: Vec<u32> = Vec::new();
                let mut null = true;
                let mut k: usize = 0;
                while k < np
                    invariant
                        k <= np,
                        ids@ =~= spec_slot_ids(np as nat, locations@).take(k as int),
                        null == (forall|j: int| 0 <= j < k && j < locations@.len() ==> #[trigger] locations@[j] == NO_LOCATION),
                    decreases np - k,
                {
                    if k < locations.len() {
                        let loc = locations[k];
                        ids.push(loc);
                        null = null && loc == NO_LOCATION;
                    } else {
                        ids.push(0u32);
                    }
                    proof {
                        assert(spec_slot_ids(np as nat, locations@).take(k + 1) =~= spec_slot_ids(np as nat, locations@).take(k as int).push(ids@.last()));
                    }
                    k = k + 1;
                }
                assert(spec_slot_ids(np as nat, locations@).take(np as int) =~= spec_slot_ids(np as nat, locations@));
                if null {
                    return Ok(SlotHandle(NULL_HANDLE, PhantomData));
                }
                let slot = UniformSlot { current: UniformValue::zeroed(kind), ids };
                index = slot_map_insert_new(&mut self.map, name, slot);
                bits_push(&mut self.dirty, false);
                proof {
                    let w = self@;
                    assert(w.slots.drop_last() =~= v.slots);
                    assert(w.slots.last().name == name@);
                    assert(w.slots.last().ids.len() == np);
                    assert forall|i: int| 0 <= i < w.slots.len() implies (#[trigger] w.slots[i]).ids.len() == w.num_programs by {
                        if i < v.slots.len() {
                            assert(w.slots[i] == v.slots[i]);
                        }
                    }
                    assert forall|i: int, j: int|
                        0 <= i < w.slots.len() && 0 <= j < w.slots.len() && i != j implies #[trigger] w.slots[i].name
                            != #[trigger] w.slots[j].name by {
                        if i < v.slots.len() && j < v.slots.len() {
                            assert(w.slots[i] == v.slots[i]);
                            assert(w.slots[j] == v.slots[j]);
                        } else if i < v.slots.len() {
                            assert(w.slots[i] == v.slots[i]);
                        } else {
                            assert(w.slots[j] == v.slots[j]);
                        }
                    }
                    assert forall|i: int| 0 <= i < w.dirty.len() && #[trigger] w.dirty[i] implies 0 <= i < v.dirty.len() && v.dirty[i] by {
                        assert(i != v.dirty.len());
                    }
                    assert forall|i: int| 0 <= i < v.dirty.len() && #[trigger] v.dirty[i] implies 0 <= i < w.dirty.len() && w.dirty[i] by {
                    }
                    let expected = spec_slot_result(v, name@, kind, locations@).0;
                    assert(w.slots.last().current.scalars =~= spec_zero_value(kind).scalars);
                    assert(w.slots.last() == expected.slots.last());
                    assert(w.slots =~= expected.slots);
                    assert(w.dirty =~= expected.dirty);
                }
            },
        }
        if index >= NULL_HANDLE as usize {
            return Err(SlotError::Overflow);
        }
        Ok(SlotHandle(index as u16, PhantomData))
    }

    /// Writes a value to the slot at index `slot`, to be flushed later, unless `same` reports
    /// that it equals the slot's current value. Writing to the null handle or to an index with
    /// no slot does nothing; writing a value of another kind than the slot's fails.
    pub fn write_slot_erased<F: Fn(&UniformValue, &UniformValue) -> bool>(
        &mut self,
        slot: u16,
        value: UniformValue,
        same: F,
    ) -> (r: Result<(), StoreError>)
        requires
            old(self).wf(),
            forall|a: &UniformValue, b: &UniformValue| same.requires((a, b)),
        ensures
            final(self).wf(),
            ({
                let v = old(self)@;
                let w = final(self)@;
                if slot == NULL_HANDLE || slot >= v.slots.len() {
                    r is Ok && w == v
                } else if v.slots[slot as int].current.kind != value.kind {
                    &&& r == Err::<(), StoreError>(StoreError::WrongType { expected: v.slots[slot as int].current.kind })
                    &&& w == v
                } else {
                    &&& r is Ok
                    &&& {
                        ||| (same.ensures((&v.slots[slot as int].current, &value), true) && w == v)
                        ||| (same.ensures((&v.slots[slot as int].current, &value), false) && w == spec_stored(v, slot as int, value))
                    }
                }
            }),
    {
        let ghost v = self@;
        if slot == NULL_HANDLE {
            return Ok(());
        }
        let i = slot as usize;
        if i >= slot_map_len(&self.map) {
            return Ok(());
        }
        let current = slot_map_value(&self.map, i).current;
        assert(current == v.slots[i as int].current);
        if current.kind != value.kind {
            return Err(StoreError::WrongType { expected: current.kind });
        }
        if same(&current, &value) {
            return Ok(());
        }
        let entry = slot_map_value_mut(&mut self.map, i);
        entry.current = value;
        bits_set(&mut self.dirty, i, true);
        self.is_dirty = true;
        proof {
            let w = self@;
            let t = spec_stored(v, i as int, value);
            assert(w.slots =~= t.slots) by {
                assert forall|j: int| 0 <= j < w.slots.len() implies #[trigger] w.slots[j] == t.slots[j] by {
                    if j != i {
                        assert(slot_map_entries(self.map)[j] == slot_map_entries(old(self).map)[j]);
                    }
                }
            }
            assert(w.dirty =~= t.dirty);
            assert(w.dirty[i as int]);
            assert forall|a: int, b: int|
                0 <= a < w.slots.len() && 0 <= b < w.slots.len() && a != b implies #[trigger] w.slots[a].name
                    != #[trigger] w.slots[b].name by {
                assert(w.slots[a].name == v.slots[a].name);
                assert(w.slots[b].name == v.slots[b].name);
            }
            assert forall|a: int| 0 <= a < w.slots.len() implies (#[trigger] w.slots[a]).ids.len() == w.num_programs by {
                assert(w.slots[a].ids == v.slots[a].ids);
            }
        }
        Ok(())
    }

    /// Writes a value to a typed slot, to be flushed later, unless `same` reports that it equals
    /// the slot's current value. Writing to the null handle or to an index with no slot does
    /// nothing. The value must be of the slot's kind.
    pub fn write_slot<T, F: Fn(&UniformValue, &UniformValue) -> bool>(
        &mut self,
        slot: SlotHandle<T>,
        data: UniformValue,
        same: F,
    )
        requires
            old(self).wf(),
            forall|a: &UniformValue, b: &UniformValue| same.requires((a, b)),
            slot.spec_index() != NULL_HANDLE && slot.spec_index() < old(self)@.slots.len() ==> old(
                self,
            )@.slots[slot.spec_index() as int].current.kind == data.kind,
        ensures
            final(self).wf(),
            ({
                let v = old(self)@;
                let w = final(self)@;
                let s = slot.spec_index();
                if s == NULL_HANDLE || s >= v.slots.len() {
                    w == v
                } else {
                    ||| (same.ensures((&v.slots[s as int].current, &data), true) && w == v)
                    ||| (same.ensures((&v.slots[s as int].current, &data), false) && w == spec_stored(v, s as int, data))
                }
            }),
    {
        let r = self.write_slot_erased(slot.0, data, same);
        match r {
            Ok(()) => {},
            Err(_) => {},
        }
    }

    /// The writes that flushing the dirty slots for the `n`-th program makes: for each dirty
    /// slot in order whose uniform that program has, its location and current value; none
    /// when there is no `n`-th program. Does not mark the slots clean.
    pub fn flush_nth(&self, n: usize) -> (r: Vec<(u32, UniformValue)>)
        requires
            self.wf(),
        ensures
            r@ == spec_flush(self@, n as int),
    {
        let ghost v = self@;
        let mut out: Vec<(u32, UniformValue)> = Vec::new();
        if !self.is_dirty || n >= self.num_programs {
            return out;
        }
        let ones = bits_ones(&self.dirty);
        let len = slot_map_len(&self.map);
        let mut t: usize = 0;
        let mut lo: usize = 0;
        while t < ones.len()
            invariant
                v == self@,
                spec_storage_wf(v),
                n < v.num_programs,
                len == v.slots.len(),
                t <= ones@.len(),
                lo <= v.slots.len(),
                t > 0 ==> lo == ones@[t - 1] + 1,
                t == 0 ==> lo == 0,
                forall|p: int| t <= p < ones@.len() ==> lo <= #[trigger] ones@[p],
                forall|i: int, j: int| 0 <= i < j < ones@.len() ==> ones@[i] < ones@[j],
                forall|i: int| 0 <= i < ones@.len() ==> #[trigger] ones@[i] < v.dirty.len() && v.dirty[ones@[i] as int],
                forall|k: int| 0 <= k < v.dirty.len() && #[trigger] v.dirty[k] ==> ones@.contains(k as usize),
                out@ == spec_flush_prefix(v, n as int, lo as int),
            decreases ones@.len() - t,
        {
            let idx = ones[t];
            proof {
                assert forall|k: int| lo <= k < idx implies !#[trigger] v.dirty[k] by {
                    if v.dirty[k] {
                        assert(ones@.contains(k as usize));
                        let p = choose|p: int| 0 <= p < ones@.len() && ones@[p] == k as usize;
                        if p < t {
                            if p < t - 1 {
                                assert(ones@[p] < ones@[t - 1]);
                            }
                        } else if p > t {
                            assert(ones@[t as int] < ones@[p]);
                        }
                    }
                }
                lemma_flush_skip_clean(v, n as int, lo as int, idx as int);
            }
            let entry = slot_map_value(&self.map, idx);
            assert(entry.spec_ids() == v.slots[idx as int].ids);
            let location = entry.ids[n];
            if location != NO_LOCATION {
                out.push((location, entry.current));
            }
            proof {
                assert(out@ == spec_flush_prefix(v, n as int, idx + 1));
                if t + 1 < ones@.len() {
                    assert(ones@[t as int] < ones@[t + 1]);
                }
            }
            lo = idx + 1;
            t = t + 1;
        }
        proof {
            assert forall|k: int| lo <= k < v.dirty.len() implies !#[trigger] v.dirty[k] by {
                if v.dirty[k] {
                    assert(ones@.contains(k as usize));
                    let p = choose|p: int| 0 <= p < ones@.len() && ones@[p] == k as usize;
                    assert(p < t);
                    assert(t > 0);
                    if p < t - 1 {
                        assert(ones@[p] < ones@[t - 1]);
                    }
                    assert(ones@[p] <= ones@[t - 1]);
                    assert(false);
                }
            }
            lemma_flush_skip_clean(v, n as int, lo as int, v.dirty.len() as int);
        }
        out
    }

    /// Finishes a flush by marking every slot clean.
    pub fn finish_flush(&mut self)
        requires
            old(self).wf(),
        ensures
            final(self).wf(),
            final(self)@.slots == old(self)@.slots,
            final(self)@.num_programs == old(self)@.num_programs,
            final(self)@.dirty.len() == old(self)@.dirty.len(),
            forall|i: int| 0 <= i < final(self)@.dirty.len() ==> !#[trigger] final(self)@.dirty[i],
            !final(self)@.is_dirty,
    {
        bits_fill(&mut self.dirty, false);
        self.is_dirty = false;
    }

    /// Whether any slot changed since the last finished flush.
    pub fn is_dirty(&self) -> (r: bool)
        requires
            self.wf(),
        ensures
            r == self@.is_dirty,
            r == (exists|i: int| 0 <= i < self@.dirty.len() && #[trigger] self@.dirty[i]),
    {
        self.is_dirty
    }
}

/// A dirty slot whose uniform the program has is written by the flush: the flush for program
/// `n` contains the slot's location and current value.
pub proof fn law_dirty_slot_is_flushed(v: UniformStorageView, n: int, s: int)
    requires
        spec_storage_wf(v),
        0 <= s < v.slots.len(),
        v.dirty[s],
        0 <= n < v.num_programs,
        v.slots[s].ids[n] != NO_LOCATION,
    ensures
        spec_flush(v, n).contains((v.slots[s].ids[n], v.slots[s].current)),
{
    assert(v.is_dirty);
    lemma_flush_prefix_contains(v, n, s, v.slots.len() as int);
}

/// The flush of a prefix that covers a dirty slot with a location contains that slot's write.
proof fn lemma_flush_prefix_contains(v: UniformStorageView, n: int, s: int, k: int)
    requires
        0 <= s < k <= v.slots.len(),
        v.dirty.len() == v.slots.len(),
        v.dirty[s],
        v.slots[s].ids[n] != NO_LOCATION,
    ensures
        spec_flush_prefix(v, n, k).contains((v.slots[s].ids[n], v.slots[s].current)),
    decreases k,
{
    let w = (v.slots[s].ids[n], v.slots[s].current);
    if k - 1 == s {
        assert(spec_flush_prefix(v, n, k).last() == w);
    } else {
        lemma_flush_prefix_contains(v, n, s, k - 1);
        let prev = spec_flush_prefix(v, n, k - 1);
        let j = choose|j: int| 0 <= j < prev.len() && prev[j] == w;
        assert(spec_flush_prefix(v, n, k)[j] == w);
    }
}

/// A value written to a slot whose uniform a program has is what the next flush for that
/// program writes at the slot's location.
pub proof fn law_stored_value_is_flushed(v: UniformStorageView, s: int, value: UniformValue, n: int)
    requires
        spec_storage_wf(v),
        0 <= s < v.slots.len(),
        0 <= n < v.num_programs,
        v.slots[s].ids[n] != NO_LOCATION,
    ensures
        spec_storage_wf(spec_stored(v, s, value)),
        spec_flush(spec_stored(v, s, value), n).contains((v.slots[s].ids[n], value)),
{
    let w = spec_stored(v, s, value);
    assert(w.dirty[s]);
    assert forall|a: int, b: int|
        0 <= a < w.slots.len() && 0 <= b < w.slots.len() && a != b implies #[trigger] w.slots[a].name
            != #[trigger] w.slots[b].name by {
        assert(w.slots[a].name == v.slots[a].name);
        assert(w.slots[b].name == v.slots[b].name);
    }
    assert forall|a: int| 0 <= a < w.slots.len() implies (#[trigger] w.slots[a]).ids.len() == w.num_programs by {
        assert(w.slots[a].ids == v.slots[a].ids);
    }
    law_dirty_slot_is_flushed(w, n, s);
}

/// After a finished flush nothing is written by the next flush, until a slot changes.
pub proof fn law_clean_storage_flushes_nothing(v: UniformStorageView, n: int)
    requires
        spec_storage_wf(v),
        forall|i: int| 0 <= i < v.dirty.len() ==> !#[trigger] v.dirty[i],
    ensures
        !v.is_dirty,
        spec_flush(v, n) == Seq::<(u32, UniformValue)>::empty(),
{
}

/// Flushing for a program index that the storage does not have writes nothing.
pub proof fn law_out_of_range_program_flushes_nothing(v: UniformStorageView, n: int)
    requires
        !(0 <= n < v.num_programs),
    ensures
        spec_flush(v, n) == Seq::<(u32, UniformValue)>::empty(),
{
}

/// A slot appended under a new name is found under that name at its index, so asking for the
/// same name again gives the same handle.
pub proof fn law_created_slot_is_found(v: UniformStorageView, w: UniformStorageView, name: Seq<char>)
    requires
        spec_find(v, name) is None,
        w.slots.len() == v.slots.len() + 1,
        w.slots.drop_last() == v.slots,
        w.slots.last().name == name,
    ensures
        spec_find(w, name) == Some(v.slots.len()),
{
    let k = v.slots.len() as int;
    assert(w.slots[k].name == name);
    let j = choose|j: int| 0 <= j < w.slots.len() && #[trigger] w.slots[j].name == name;
    if j < k {
        assert(w.slots.drop_last()[j] == w.slots[j]);
        assert(v.slots[j].name == name);
    }
}

/// Distinct names have distinct slots, so the handles of two different names never alias.
pub proof fn law_distinct_names_distinct_slots(v: UniformStorageView, a: Seq<char>, b: Seq<char>)
    requires
        spec_storage_wf(v),
        a != b,
        spec_find(v, a) is Some,
        spec_find(v, b) is Some,
    ensures
        spec_find(v, a) != spec_find(v, b),
{
}

} // verus!
