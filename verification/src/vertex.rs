//! Vertex components, their memory layout, and the builder that lays out raw vertex data.
use vstd::prelude::*;

verus! {

/// The kind of data type a vertex component has.
#[derive(Clone, Copy, Debug, PartialEq, Eq, Structural)]
pub enum DataType {
    Float,
    SignedInt,
    UnsignedInt,
    Byte,
    UnsignedByte,
    Short,
    UnsignedShort,
}

impl DataType {
    /// The graphics API's enumerant for this data type.
    pub fn gl_enum(self) -> (r: u32)
        ensures
            r == spec_data_type_gl_enum(self),
    {
        match self {
            DataType::Float => 0x1406,
            DataType::SignedInt => 0x1404,
            DataType::UnsignedInt => 0x1405,
            DataType::Byte => 0x1400,
            DataType::UnsignedByte => 0x1401,
            DataType::Short => 0x1402,
            DataType::UnsignedShort => 0x1403,
        }
    }
}

/// The graphics API's enumerant for each data type.
pub open spec fn spec_data_type_gl_enum(t: DataType) -> u32 {
    match t {
        DataType::Float => 0x1406,
        DataType::SignedInt => 0x1404,
        DataType::UnsignedInt => 0x1405,
        DataType::Byte => 0x1400,
        DataType::UnsignedByte => 0x1401,
        DataType::Short => 0x1402,
        DataType::UnsignedShort => 0x1403,
    }
}

/// The number of scalars in a vertex component.
#[derive(Clone, Copy, Debug, PartialEq, Eq, Structural)]
pub enum ComponentCount {
    _1,
    _2,
    _3,
    _4,
}

/// The number of scalars that each component count stands for.
pub open spec fn spec_count(c: ComponentCount) -> nat {
    match c {
        ComponentCount::_1 => 1,
        ComponentCount::_2 => 2,
        ComponentCount::_3 => 3,
        ComponentCount::_4 => 4,
    }
}

impl ComponentCount {
    /// The number of scalars.
    pub fn count(self) -> (r: u32)
        ensures
            r == spec_count(self),
    {
        match self {
            ComponentCount::_1 => 1,
            ComponentCount::_2 => 2,
            ComponentCount::_3 => 3,
            ComponentCount::_4 => 4,
        }
    }
}

/// A component of a vertex: its scalar type, how many scalars, and whether they are normalized.
#[derive(Clone, Copy, Debug, PartialEq, Eq, Structural)]
pub struct VertexComponent {
    pub ty: DataType,
    pub count: ComponentCount,
    pub normalized: bool,
}

/// The size in bytes of one scalar of the given type.
pub open spec fn spec_scalar_size(t: DataType) -> nat {
    match t {
        DataType::Float | DataType::SignedInt | DataType::UnsignedInt => 4,
        DataType::Byte | DataType::UnsignedByte => 1,
        DataType::Short | DataType::UnsignedShort => 2,
    }
}

/// The size in bytes of a whole component.
pub open spec fn spec_component_size(c: VertexComponent) -> nat {
    spec_scalar_size(c.ty) * spec_count(c.count)
}

/// The alignment that the graphics API requires of a component: its size for one or
/// two scalars, and the size of four scalars for three or four.
pub open spec fn spec_component_align(c: VertexComponent) -> nat {
    match c.count {
        ComponentCount::_1 | ComponentCount::_2 => spec_scalar_size(c.ty) * spec_count(c.count),
        ComponentCount::_3 | ComponentCount::_4 => spec_scalar_size(c.ty) * 4,
    }
}

/// `x` rounded up to the next multiple of `a`.
pub open spec fn round_up(x: nat, a: nat) -> nat
    recommends
        a > 0,
{
    if x % a == 0 {
        x
    } else {
        (x + (a - x % a)) as nat
    }
}

/// The size and alignment of the record made by placing the given components one after
/// the other, each at the first offset that its alignment allows.
pub open spec fn spec_record_layout(cs: Seq<VertexComponent>) -> (nat, nat)
    decreases cs.len(),
{
    if cs.len() == 0 {
        (0, 1)
    } else {
        let prev = spec_record_layout(cs.drop_last());
        let last = cs.last();
        (
            round_up(prev.0, spec_component_align(last)) + spec_component_size(last),
            if prev.1 >= spec_component_align(last) {
                prev.1
            } else {
                spec_component_align(last)
            },
        )
    }
}

/// The offset at which the `i`-th component is placed in the record.
pub open spec fn spec_record_offset(cs: Seq<VertexComponent>, i: int) -> nat {
    round_up(spec_record_layout(cs.take(i)).0, spec_component_align(cs[i]))
}

/// A size and an alignment, the alignment a power of two no larger than the size limit allows.
#[derive(Clone, Copy, Debug, PartialEq, Eq, Structural)]
pub struct Layout {
    size: usize,
    align: usize,
}

impl View for Layout {
    type V = (nat, nat);

    closed spec fn view(&self) -> (nat, nat) {
        (self.size as nat, self.align as nat)
    }
}

impl Layout {
    /// The size in bytes.
    pub fn size(&self) -> (r: usize)
        ensures
            r == self@.0,
    {
        self.size
    }

    /// The alignment in bytes.
    pub fn align(&self) -> (r: usize)
        ensures
            r == self@.1,
    {
        self.align
    }
}

impl VertexComponent {
    /// The size in bytes of one scalar of the component.
    fn component_size(self) -> (r: usize)
        ensures
            r == spec_scalar_size(self.ty),
    {
        match self.ty {
            DataType::Float => 4,
            DataType::SignedInt => 4,
            DataType::UnsignedInt => 4,
            DataType::Byte => 1,
            DataType::UnsignedByte => 1,
            DataType::Short => 2,
            DataType::UnsignedShort => 2,
        }
    }

    /// The total size of the component in bytes.
    pub fn size(self) -> (r: usize)
        ensures
            r == spec_component_size(self),
            1 <= r <= 16,
    {
        let cs = self.component_size();
        let n = self.count.count() as usize;
        assert(1 <= cs * n <= 16) by (nonlinear_arith)
            requires
                1 <= cs <= 4,
                1 <= n <= 4,
        ;
        cs * n
    }

    /// The minimum alignment of the component that the graphics API requires.
    pub fn align(self) -> (r: usize)
        ensures
            r == spec_component_align(self),
            r == 1 || r == 2 || r == 4 || r == 8 || r == 16,
    {
        let cs = self.component_size();
        match self.count {
            ComponentCount::_1 => cs,
            ComponentCount::_2 => cs * 2,
            ComponentCount::_3 => cs * 4,
            ComponentCount::_4 => cs * 4,
        }
    }

    /// The size and alignment of the component as a layout.
    pub fn layout(self) -> (r: Layout)
        ensures
            r@ == (spec_component_size(self), spec_component_align(self)),
    {
        Layout { size: self.size(), align: self.align() }
    }
}

/// `x` rounded up to a positive alignment is the least multiple of it that is at least `x`.
pub proof fn lemma_round_up(x: nat, a: nat)
    requires
        a > 0,
    ensures
        x <= round_up(x, a) < x + a,
        round_up(x, a) % a == 0,
{
    if x % a != 0 {
        assert(((x + (a - x % a)) as int) % (a as int) == 0) by (nonlinear_arith)
            requires
                a > 0,
                0 < x % a < a,
        {
            vstd::arithmetic::div_mod::lemma_fundamental_div_mod(x as int, a as int);
            vstd::arithmetic::div_mod::lemma_mod_multiples_basic((x / a + 1) as int, a as int);
        }
    }
}

/// The record made of the first `i + 1` components ends right after the `i`-th component.
pub proof fn lemma_record_prefix(cs: Seq<VertexComponent>, i: int)
    requires
        0 <= i < cs.len(),
    ensures
        spec_record_layout(cs.take(i + 1)).0 == spec_record_offset(cs, i) + spec_component_size(cs[i]),
        spec_record_layout(cs.take(i)).0 <= spec_record_offset(cs, i),
        spec_record_layout(cs.take(i + 1)).1 == (if spec_record_layout(cs.take(i)).1 >= spec_component_align(cs[i]) {
            spec_record_layout(cs.take(i)).1
        } else {
            spec_component_align(cs[i])
        }),
{
    assert(cs.take(i + 1).drop_last() =~= cs.take(i));
    assert(cs.take(i + 1).last() == cs[i]);
    let a = spec_component_align(cs[i]);
    assert(a > 0) by {
        lemma_component_bounds(cs[i]);
    }
    lemma_round_up(spec_record_layout(cs.take(i)).0, a);
}

/// Every component has a size and alignment between one and sixteen bytes.
pub proof fn lemma_component_bounds(c: VertexComponent)
    ensures
        1 <= spec_component_size(c) <= 16,
        1 <= spec_component_align(c) <= 16,
{
}

/// A record's size and alignment only grow as components are appended.
pub proof fn lemma_record_monotone(cs: Seq<VertexComponent>, i: int, j: int)
    requires
        0 <= i <= j <= cs.len(),
    ensures
        spec_record_layout(cs.take(i)).0 <= spec_record_layout(cs.take(j)).0,
        spec_record_layout(cs.take(i)).1 <= spec_record_layout(cs.take(j)).1,
        spec_record_layout(cs.take(i)).1 >= 1,
    decreases j - i,
{
    if i == j {
        lemma_record_align_positive(cs.take(i));
    } else {
        lemma_record_monotone(cs, i, j - 1);
        lemma_record_prefix(cs, j - 1);
    }
}

/// A record's alignment is at least one.
pub proof fn lemma_record_align_positive(cs: Seq<VertexComponent>)
    ensures
        spec_record_layout(cs).1 >= 1,
    decreases cs.len(),
{
    if cs.len() > 0 {
        lemma_record_align_positive(cs.drop_last());
    }
}

/// Every component is placed at an offset that is a multiple of its alignment, and
/// components do not overlap: each one starts after the previous one ends and the
/// record ends after the last one.
pub proof fn law_record_offsets_aligned_disjoint(cs: Seq<VertexComponent>, i: int)
    requires
        0 <= i < cs.len(),
    ensures
        spec_record_offset(cs, i) % spec_component_align(cs[i]) == 0,
        i > 0 ==> spec_record_offset(cs, i - 1) + spec_component_size(cs[i - 1]) <= spec_record_offset(cs, i),
        spec_record_offset(cs, i) + spec_component_size(cs[i]) <= spec_record_layout(cs).0,
{
    lemma_component_bounds(cs[i]);
    lemma_round_up(spec_record_layout(cs.take(i)).0, spec_component_align(cs[i]));
    lemma_record_prefix(cs, i);
    if i > 0 {
        lemma_record_prefix(cs, i - 1);
    }
    lemma_record_monotone(cs, i + 1, cs.len() as int);
    assert(cs.take(cs.len() as int) =~= cs);
}

/// Errors in building raw vertex data.
#[derive(Clone, Copy, Debug, PartialEq, Eq, Structural)]
pub enum VertexBuildError {
    /// A field's data does not have the size of the component it fills.
    ComponentsDontMatch,
    /// The last vertex is missing some of its fields.
    NotEnoughData,
}

impl VertexBuildError {
    /// The human-readable description of the error.
    pub fn message(&self) -> (r: &'static str)
        ensures
            *self == VertexBuildError::ComponentsDontMatch ==> r@
                == "Components don't match the layout previously specified"@,
            *self == VertexBuildError::NotEnoughData ==> r@ == "Not enough data to make a vertex buffer"@,
    {
        match self {
            VertexBuildError::ComponentsDontMatch => "Components don't match the layout previously specified",
            VertexBuildError::NotEnoughData => "Not enough data to make a vertex buffer",
        }
    }
}

/// Valid vertex data that can be turned into a vertex buffer: the bytes of the vertices,
/// each component with its offset inside a vertex, and the size of one vertex.
pub struct VertexData {
    pub bytes: Vec<u8>,
    pub components: Vec<(VertexComponent, usize)>,
    pub vertex_size: i32,
}

/// How the graphics API reads one vertex attribute from a vertex buffer: the attribute's
/// index, its number of scalars, its data type enumerant, whether it is normalized, the
/// distance in bytes between vertices and its offset inside a vertex.
#[derive(Clone, Copy, Debug, PartialEq, Eq, Structural)]
pub struct VertexAttribute {
    pub index: u32,
    pub count: u32,
    pub ty: u32,
    pub normalized: bool,
    pub stride: i32,
    pub offset: usize,
}

/// The attribute read from the `i`-th laid-out component of vertices of `vertex_size` bytes.
pub open spec fn spec_attribute(laid: (VertexComponent, usize), i: int, vertex_size: i32) -> VertexAttribute {
    VertexAttribute {
        index: i as u32,
        count: spec_count(laid.0.count) as u32,
        ty: spec_data_type_gl_enum(laid.0.ty),
        normalized: laid.0.normalized,
        stride: vertex_size,
        offset: laid.1,
    }
}

impl VertexData {
    /// The number of whole vertices in the data.
    pub fn vertex_count(&self) -> (r: usize)
        requires
            self.vertex_size > 0,
        ensures
            r == self.bytes@.len() / (self.vertex_size as nat),
    {
        self.bytes.len() / (self.vertex_size as usize)
    }

    /// The attribute pointers that describe the data to the graphics API, one per
    /// component, in order.
    pub fn attributes(&self) -> (r: Vec<VertexAttribute>)
        requires
            self.components@.len() <= u32::MAX,
        ensures
            r@.len() == self.components@.len(),
            forall|i: int| 0 <= i < r@.len() ==> #[trigger] r@[i] == spec_attribute(self.components@[i], i, self.vertex_size),
    {
        let mut out: Vec<VertexAttribute> = Vec::new();
        let mut i: usize = 0;
        while i < self.components.len()
            invariant
                i <= self.components@.len(),
                self.components@.len() <= u32::MAX,
                out@.len() == i,
                forall|k: int| 0 <= k < i ==> #[trigger] out@[k] == spec_attribute(self.components@[k], k, self.vertex_size),
            decreases self.components@.len() - i,
        {
            let (component, offset) = self.components[i];
            out.push(VertexAttribute {
                index: i as u32,
                count: component.count.count(),
                ty: component.ty.gl_enum(),
                normalized: component.normalized,
                stride: self.vertex_size,
                offset,
            });
            i = i + 1;
        }
        out
    }
}

/// Each laid-out component sits at its offset in the record that the components make,
/// and `vertex_size` is the size of that record.
#[verifier::opaque]
pub open spec fn spec_laid_out(laid: Seq<(VertexComponent, usize)>, vertex_size: i32) -> bool {
    let cs = spec_laid_components(laid);
    &&& forall|i: int| 0 <= i < laid.len() ==> #[trigger] laid[i].1 == spec_record_offset(cs, i)
    &&& vertex_size as int == spec_record_layout(cs).0
    &&& vertex_size >= 0
}

/// The components of a laid-out component list.
pub open spec fn spec_laid_components(laid: Seq<(VertexComponent, usize)>) -> Seq<VertexComponent> {
    laid.map_values(|p: (VertexComponent, usize)| p.0)
}

/// Builds raw vertex data field by field, inserting the padding that the layout requires.
pub struct VertexBuilder {
    components: Vec<(VertexComponent, usize)>,
    bytes: Vec<u8>,
    vertex_size: i32,
    current_offset: usize,
    current_field: usize,
    completed: Ghost<nat>,
}

impl VertexBuilder {
    /// Each component with the offset at which it is placed inside a vertex.
    pub closed spec fn spec_components(&self) -> Seq<(VertexComponent, usize)> {
        self.components@
    }

    /// The bytes written so far.
    pub closed spec fn spec_bytes(&self) -> Seq<u8> {
        self.bytes@
    }

    /// The size of one vertex in bytes.
    pub closed spec fn spec_vertex_size(&self) -> int {
        self.vertex_size as int
    }

    /// The offset inside the current vertex right after the last field written.
    pub closed spec fn spec_current_offset(&self) -> nat {
        self.current_offset as nat
    }

    /// The number of fields of the current vertex written so far.
    pub closed spec fn spec_current_field(&self) -> nat {
        self.current_field as nat
    }

    /// The number of vertices written before the current one.
    pub closed spec fn spec_completed(&self) -> nat {
        self.completed@
    }

    /// The layout part of the builder's invariant: each component sits at its offset in the
    /// record, and the vertex size is the record's size.
    pub closed spec fn layout_ok(&self) -> bool {
        spec_laid_out(self.components@, self.vertex_size)
    }

    /// The builder's invariant: offsets follow the layout, the vertex size is the record size,
    /// and the bytes hold the completed vertices followed by the current partial one.
    pub closed spec fn wf(&self) -> bool {
        let cs = spec_laid_components(self.components@);
        &&& self.layout_ok()
        &&& self.current_field <= self.components@.len()
        &&& self.current_offset as int == (if self.current_field == 0 {
            0
        } else {
            spec_record_layout(cs.take(self.current_field as int)).0
        })
        &&& self.bytes@.len() == self.completed@ * (self.vertex_size as int) + self.current_offset
    }

    /// What the layout part of the invariant says of the field at index `f`.
    proof fn lemma_slot(&self, f: int)
        requires
            self.layout_ok(),
            0 <= f < self.components@.len(),
        ensures
            ({
                let cs = spec_laid_components(self.components@);
                &&& cs[f] == self.components@[f].0
                &&& self.components@[f].1 == spec_record_offset(cs, f)
                &&& spec_record_layout(cs.take(f)).0 <= self.components@[f].1
                &&& spec_record_layout(cs.take(f + 1)).0 == self.components@[f].1
                    + spec_component_size(cs[f])
                &&& self.components@[f].1 + spec_component_size(cs[f]) <= self.vertex_size
                &&& f == self.components@.len() - 1 ==> self.components@[f].1 + spec_component_size(
                    cs[f],
                ) == self.vertex_size
            }),
    {
        reveal(spec_laid_out);
        let cs = spec_laid_components(self.components@);
        assert(self.components@[f].1 == spec_record_offset(cs, f));
        lemma_record_prefix(cs, f);
        lemma_record_monotone(cs, f + 1, cs.len() as int);
        assert(cs.take(cs.len() as int) =~= cs);
    }

    /// Where the next field goes: the field index and the current offset, after starting a
    /// new vertex if the current one is complete.
    pub open spec fn spec_next_slot(&self) -> (nat, nat) {
        if self.spec_current_field() >= self.spec_components().len() {
            (0, 0)
        } else {
            (self.spec_current_field(), self.spec_current_offset())
        }
    }

    /// Creates a builder for vertices made of the given components in order. The record
    /// they make must fit the size limits of a vertex.
    pub fn new(components: Vec<VertexComponent>) -> (r: Self)
        requires
            spec_record_layout(components@).0 <= i32::MAX,
            spec_record_layout(components@).0 + spec_record_layout(components@).1 - 1 <= isize::MAX,
        ensures
            r.wf(),
            spec_laid_components(r.spec_components()) == components@,
            r.spec_components().len() == components@.len(),
            forall|i: int|
                0 <= i < components@.len() ==> (#[trigger] r.spec_components()[i]).0 == components@[i]
                    && r.spec_components()[i].1 == spec_record_offset(components@, i),
            r.spec_vertex_size() == spec_record_layout(components@).0,
            r.spec_bytes() == Seq::<u8>::empty(),
            r.spec_current_field() == 0,
            r.spec_current_offset() == 0,
            r.spec_completed() == 0,
    {
        let ghost cs = components@;
        let mut laid: Vec<(VertexComponent, usize)> = Vec::new();
        let mut size: usize = 0;
        let mut align: usize = 1;
        let mut i: usize = 0;
        assert(cs.take(0) =~= Seq::<VertexComponent>::empty());
        while i < components.len()
            invariant
                cs == components@,
                i <= cs.len(),
                size == spec_record_layout(cs.take(i as int)).0,
                align == spec_record_layout(cs.take(i as int)).1,
                laid@.len() == i,
                forall|j: int| 0 <= j < i ==> (#[trigger] laid@[j]).0 == cs[j] && laid@[j].1 == spec_record_offset(cs, j),
                spec_record_layout(cs).0 <= i32::MAX,
            decreases cs.len() - i,
        {
            let c = components[i];
            let a = c.align();
            proof {
                lemma_record_prefix(cs, i as int);
                lemma_record_monotone(cs, i as int + 1, cs.len() as int);
                assert(cs.take(cs.len() as int) =~= cs);
                lemma_component_bounds(c);
            }
            let rem = size % a;
            let offset = if rem == 0 {
                size
            } else {
                size + (a - rem)
            };
            laid.push((c, offset));
            size = offset + c.size();
            if align < a {
                align = a;
            }
            i = i + 1;
        }
        assert(cs.take(cs.len() as int) =~= cs);
        assert(spec_laid_components(laid@) =~= cs);
        let r = VertexBuilder {
            components: laid,
            bytes: Vec::new(),
            vertex_size: size as i32,
            current_field: 0,
            current_offset: 0,
            completed: Ghost(0nat),
        };
        assert(r.layout_ok()) by {
            reveal(spec_laid_out);
        }
        assert(r.bytes@.len() == 0);
        assert(r.completed@ == 0);
        assert(r.completed@ * (r.vertex_size as int) == 0) by (nonlinear_arith)
            requires
                r.completed@ == 0,
        ;
        r
    }

    /// Writes the next field of the current vertex, padding up to the field's offset first;
    /// once a vertex is complete, the next field starts a new one. Fails when the data does
    /// not have the size of the component that the field fills.
    #[verifier::rlimit(40)]
    pub fn field(self, data: &[u8]) -> (r: Result<Self, VertexBuildError>)
        requires
            self.wf(),
            self.spec_components().len() > 0,
            self.spec_bytes().len() + self.spec_vertex_size() <= isize::MAX,
        ensures
            ({
                let (f, o) = self.spec_next_slot();
                let (c, off) = self.spec_components()[f as int];
                &&& r is Ok <==> data@.len() == spec_component_size(c)
                &&& r matches Err(e) ==> e == VertexBuildError::ComponentsDontMatch
                &&& r matches Ok(b) ==> {
                    &&& b.wf()
                    &&& b.spec_components() == self.spec_components()
                    &&& b.spec_vertex_size() == self.spec_vertex_size()
                    &&& b.spec_bytes() == self.spec_bytes() + Seq::new(
                        (off - o) as nat,
                        |k: int| 0u8,
                    ) + data@
                    &&& b.spec_current_field() == f + 1
                    &&& b.spec_current_offset() == off + spec_component_size(c)
                }
            }),
    {
        let mut this = self;
        let ghost laid = this.components@;
        let ghost cs = spec_laid_components(laid);
        let ghost old_bytes = self.bytes@;
        if this.current_field >= this.components.len() {
            proof {
                this.lemma_slot(laid.len() - 1);
                assert(cs.take(cs.len() as int) =~= cs);
                assert(this.current_offset == this.vertex_size);
                assert((this.completed@ + 1) * (this.vertex_size as int) == this.completed@ * (
                this.vertex_size as int) + this.vertex_size) by (nonlinear_arith);
            }
            this.current_offset = 0;
            this.current_field = 0;
            this.completed = Ghost(this.completed@ + 1);
        }
        let f = this.current_field;
        let (component, offset) = this.components[f];
        proof {
            this.lemma_slot(f as int);
            if f > 0 {
                this.lemma_slot(f - 1);
            }
        }
        let size = component.size();
        if data.len() != size {
            return Err(VertexBuildError::ComponentsDontMatch);
        }
        let ghost pad_start = this.current_offset;
        let ghost fixed = (this.components@, this.vertex_size, this.completed@, this.current_field);
        assert(pad_start <= offset);
        while this.current_offset < offset
            invariant
                pad_start <= this.current_offset <= offset,
                this.bytes@.len() == old_bytes.len() + (this.current_offset - pad_start),
                forall|k: int| 0 <= k < old_bytes.len() ==> this.bytes@[k] == old_bytes[k],
                forall|k: int| old_bytes.len() <= k < this.bytes@.len() ==> this.bytes@[k] == 0u8,
                old_bytes.len() + offset - pad_start <= isize::MAX,
                fixed == (this.components@, this.vertex_size, this.completed@, this.current_field),
            decreases offset - this.current_offset,
        {
            this.bytes.push(0u8);
            this.current_offset = this.current_offset + 1;
        }
        let ghost padded = this.bytes@;
        assert(padded =~= old_bytes + Seq::new((offset - pad_start) as nat, |k: int| 0u8));
        let mut j: usize = 0;
        while j < data.len()
            invariant
                j <= data@.len(),
                this.bytes@ =~= padded + data@.take(j as int),
                padded.len() + data@.len() <= isize::MAX,
                fixed == (this.components@, this.vertex_size, this.completed@, this.current_field),
                this.current_offset == offset,
            decreases data@.len() - j,
        {
            this.bytes.push(data[j]);
            assert(data@.take(j + 1) =~= data@.take(j as int).push(data@[j as int]));
            j = j + 1;
        }
        assert(data@.take(data@.len() as int) =~= data@);
        this.current_offset = offset + size;
        this.current_field = f + 1;
        assert(this.bytes@.len() == this.completed@ * (this.vertex_size as int) + this.current_offset);
        Ok(this)
    }

    /// Finishes building, failing when the last vertex is missing some of its fields.
    pub fn build(self) -> (r: Result<VertexData, VertexBuildError>)
        requires
            self.wf(),
        ensures
            r is Ok <==> self.spec_current_field() >= self.spec_components().len(),
            r matches Err(e) ==> e == VertexBuildError::NotEnoughData,
            r matches Ok(d) ==> {
                &&& d.bytes@ == self.spec_bytes()
                &&& d.components@ == self.spec_components()
                &&& d.vertex_size == self.spec_vertex_size()
                &&& d.vertex_size > 0 ==> (d.bytes@.len() as int) % (d.vertex_size as int) == 0
            },
    {
        if self.current_field < self.components.len() {
            return Err(VertexBuildError::NotEnoughData);
        }
        proof {
            let laid = self.components@;
            let cs = spec_laid_components(laid);
            if laid.len() > 0 {
                self.lemma_slot(laid.len() - 1);
                assert(cs.take(cs.len() as int) =~= cs);
                assert(self.current_offset == self.vertex_size);
            }
            if self.vertex_size > 0 {
                if laid.len() == 0 {
                    reveal(spec_laid_out);
                    assert(cs =~= Seq::<VertexComponent>::empty());
                }
                assert(self.bytes@.len() == (self.completed@ + 1) * (self.vertex_size as int)) by (
                nonlinear_arith)
                    requires
                        self.bytes@.len() == self.completed@ * (self.vertex_size as int)
                            + self.current_offset,
                        self.current_offset == self.vertex_size,
                ;
                vstd::arithmetic::div_mod::lemma_mod_multiples_basic(
                    (self.completed@ + 1) as int,
                    self.vertex_size as int,
                );
            }
        }
        Ok(VertexData {
            bytes: self.bytes,
            components: self.components,
            vertex_size: self.vertex_size,
        })
    }
}

/// Each scalar type takes the bytes of its Rust type: four for floats (like `u32`), and
/// the size of `i32`, `u32`, `i8`, `u8`, `i16` and `u16` for the integer types; a component
/// of `n` scalars takes `n` times that.
pub proof fn law_component_sizes(c: VertexComponent)
    ensures
        spec_scalar_size(DataType::Float) == vstd::layout::size_of::<u32>(),
        spec_scalar_size(DataType::SignedInt) == vstd::layout::size_of::<i32>(),
        spec_scalar_size(DataType::UnsignedInt) == vstd::layout::size_of::<u32>(),
        spec_scalar_size(DataType::Byte) == vstd::layout::size_of::<i8>(),
        spec_scalar_size(DataType::UnsignedByte) == vstd::layout::size_of::<u8>(),
        spec_scalar_size(DataType::Short) == vstd::layout::size_of::<i16>(),
        spec_scalar_size(DataType::UnsignedShort) == vstd::layout::size_of::<u16>(),
        spec_count(ComponentCount::_1) == 1 && spec_count(ComponentCount::_2) == 2
            && spec_count(ComponentCount::_3) == 3 && spec_count(ComponentCount::_4) == 4,
        spec_component_size(c) == spec_count(c.count) * spec_scalar_size(c.ty),
        c.ty == DataType::UnsignedShort && c.count == ComponentCount::_2 ==> spec_component_size(c) == 4,
{
    broadcast use vstd::layout::layout_of_primitives;
    vstd::arithmetic::mul::lemma_mul_is_commutative(
        spec_count(c.count) as int,
        spec_scalar_size(c.ty) as int,
    );
}

} // verus!
