//! The rendering pipeline's model: how textures are scaled and paused, and which texture
//! unit each shader sampler reads.
use vstd::prelude::*;
use vstd::string::*;
use crate::fade::FadeDirection;
use crate::text::{append_decimal, law_decimal_injective, spec_decimal};
use crate::uniforms::{
    spec_find, spec_slot_ids, spec_slot_is_null, SlotHandle, UniformKind, UniformStorage,
    UniformValue, NULL_HANDLE,
};

verus! {

/// The signal that something changed and the wallpaper may need to be drawn again.
#[derive(Clone, Copy, Debug, PartialEq, Eq, Structural)]
pub struct RenderUpdate;

/// What textures do when the wallpaper loses focus.
#[derive(Clone, Copy, Debug, PartialEq, Eq, Structural)]
pub struct FocusBehavior {
    /// Whether the texture should pause its animation once its audio has faded out.
    pub pause: bool,
}

impl FocusBehavior {
    /// Whether a video should be paused (`Some(true)`), resumed (`Some(false)`) or left
    /// alone (`None`) at a step of a fade in `direction`; `faded_out` tells whether the
    /// fade's progress has reached zero. A completed fade out pauses when the behavior
    /// asks for it, and any fade in resumes.
    pub fn pause_request(&self, direction: FadeDirection, faded_out: bool) -> (r: Option<bool>)
        ensures
            r == (if self.pause && direction == FadeDirection::Out && faded_out {
                Some(true)
            } else if direction == FadeDirection::In {
                Some(false)
            } else {
                None::<bool>
            }),
    {
        if self.pause && direction == FadeDirection::Out && faded_out {
            Some(true)
        } else if direction == FadeDirection::In {
            Some(false)
        } else {
            None
        }
    }
}

/// How a texture is scaled to the display.
#[derive(Clone, Copy, Debug, PartialEq, Eq, Structural)]
pub enum Scaling {
    /// Crops the image so that it fills the screen without distortion, cutting off edges.
    CropToFit,
    /// Stretches the video to fill the screen.
    Stretch,
    /// No scaling at all; for videos that are meant to be used as plain textures.
    Unscaled,
}

impl Scaling {
    /// Whether a video with this scaling renders into a framebuffer of the display's size
    /// from the start; an unscaled video waits for its own size to be known.
    pub fn needs_display_framebuffer(self) -> (r: bool)
        ensures
            r == (self != Scaling::Unscaled),
    {
        self != Scaling::Unscaled
    }
}

/// Where a stage of the pipeline draws.
#[derive(Clone, Copy, Debug, PartialEq, Eq, Structural)]
pub enum RenderTarget {
    /// The stage's own output buffer.
    Own,
    /// The framebuffer that the caller gave for the final picture.
    Final,
    /// The window's default framebuffer.
    Default,
}

/// Where a stage draws and the size of its viewport: its own output buffer, with that
/// buffer's size, if it has one; otherwise the final framebuffer if one is given, else the
/// window's, both with the surface's size.
pub fn render_target(own: Option<(i32, i32)>, has_final: bool, surface: (i32, i32)) -> (r: (RenderTarget, (i32, i32)))
    ensures
        r == (match own {
            Some(d) => (RenderTarget::Own, d),
            None => if has_final {
                (RenderTarget::Final, surface)
            } else {
                (RenderTarget::Default, surface)
            },
        }),
{
    match own {
        Some(d) => (RenderTarget::Own, d),
        None => if has_final {
            (RenderTarget::Final, surface)
        } else {
            (RenderTarget::Default, surface)
        },
    }
}

impl Default for Scaling {
    fn default() -> (r: Self)
        ensures
            r == Scaling::CropToFit,
    {
        Scaling::CropToFit
    }
}

/// The name of the sampler uniform of the `i`-th input texture.
pub open spec fn spec_texture_uniform_name(i: nat) -> Seq<char> {
    seq!['t', 'e', 'x', 't', 'u', 'r', 'e', '_'] + spec_decimal(i)
}

/// The sampler uniform names of the pipeline's texture units, in unit order: one per
/// input texture, then the names of the stages' output buffers.
pub fn texture_uniform_names(texture_count: usize, outputs: &Vec<String>) -> (r: Vec<String>)
    requires
        texture_count + outputs.len() <= usize::MAX,
    ensures
        r.len() == texture_count + outputs.len(),
        forall|i: int| 0 <= i < texture_count ==> #[trigger] r[i]@ == spec_texture_uniform_name(i as nat),
        forall|j: int| 0 <= j < outputs.len() ==> #[trigger] r[texture_count + j]@ == outputs[j]@,
{
    let mut names: Vec<String> = Vec::new();
    let mut i: usize = 0;
    while i < texture_count
        invariant
            i <= texture_count,
            names.len() == i,
            forall|k: int| 0 <= k < i ==> #[trigger] names[k]@ == spec_texture_uniform_name(k as nat),
        decreases texture_count - i,
    {
        let prefix = "texture_";
        proof {
            reveal_strlit("texture_");
        }
        let mut name = String::from_str(prefix);
        append_decimal(&mut name, i as u64);
        assert(name@ =~= spec_texture_uniform_name(i as nat));
        names.push(name);
        i = i + 1;
    }
    let mut j: usize = 0;
    while j < outputs.len()
        invariant
            j <= outputs.len(),
            names.len() == texture_count + j,
            forall|k: int| 0 <= k < texture_count ==> #[trigger] names[k]@ == spec_texture_uniform_name(k as nat),
            forall|k: int| 0 <= k < j ==> #[trigger] names[texture_count + k]@ == outputs[k]@,
            texture_count + outputs.len() <= usize::MAX,
        decreases outputs.len() - j,
    {
        names.push(outputs[j].clone());
        j = j + 1;
    }
    names
}

/// The value of an integer uniform holding `x`.
pub open spec fn spec_int_uniform(x: u32) -> UniformValue {
    UniformValue { kind: UniformKind::I32, scalars: [x, 0, 0, 0, 0, 0, 0, 0, 0, 0, 0, 0, 0, 0, 0, 0] }
}

/// Whether no entry after the `i`-th has the same name.
pub open spec fn spec_last_of_name(names: Seq<String>, i: int) -> bool {
    forall|m: int| i < m < names.len() ==> #[trigger] names[m]@ != names[i]@
}

/// Whether the `c`-th unit creates its name's slot: some program uses its uniform, and no
/// earlier unit of the same name had a program using it.
pub open spec fn spec_creates_slot(names: Seq<String>, locations: Seq<Vec<u32>>, num_programs: nat, c: int) -> bool {
    &&& !spec_slot_is_null(num_programs, locations[c]@)
    &&& forall|m: int|
        0 <= m < c && #[trigger] names[m]@ == names[c]@ ==> spec_slot_is_null(num_programs, locations[m]@)
}

/// Whether no unit up to the `i`-th with its name has a program that uses its uniform.
pub open spec fn spec_unused_so_far(names: Seq<String>, locations: Seq<Vec<u32>>, num_programs: nat, i: int) -> bool {
    forall|g: int|
        0 <= g <= i && #[trigger] names[g]@ == names[i]@ ==> spec_slot_is_null(num_programs, locations[g]@)
}

/// The number of the first `k` units that create a slot.
pub open spec fn spec_creator_count(names: Seq<String>, locations: Seq<Vec<u32>>, num_programs: nat, k: int) -> nat
    decreases k,
{
    if k <= 0 {
        0
    } else {
        spec_creator_count(names, locations, num_programs, k - 1) + if spec_creates_slot(
            names,
            locations,
            num_programs,
            k - 1,
        ) {
            1nat
        } else {
            0nat
        }
    }
}

/// Counting creators over a longer prefix counts no fewer, and no more than the prefix.
proof fn lemma_creator_count_monotone(names: Seq<String>, locations: Seq<Vec<u32>>, num_programs: nat, a: int, b: int)
    requires
        0 <= a <= b,
    ensures
        spec_creator_count(names, locations, num_programs, a) <= spec_creator_count(names, locations, num_programs, b),
        spec_creator_count(names, locations, num_programs, b) <= b,
    decreases b,
{
    if b > 0 {
        if a < b {
            lemma_creator_count_monotone(names, locations, num_programs, a, b - 1);
        } else {
            lemma_creator_count_monotone(names, locations, num_programs, b - 1, b - 1);
        }
    }
}

/// A storage for `num_programs` programs holding the sampler uniforms of the texture
/// units: for each unit in order, the integer slot named `names[i]`, with the locations
/// `locations[i]` in the programs, receives the unit's index. The handle of a unit is null
/// while no unit of its name so far has a program using the uniform. Units of the same
/// name share its slot, whose locations are those of the unit that created it and whose
/// value is the last of their indexes; a slot is dirty exactly when its value is not zero.
/// Slots are created in unit order. The slots that units create must fit 16-bit handles,
/// and unit indexes fit the 32-bit uniform.
pub fn texture_unit_slots(num_programs: usize, names: Vec<String>, locations: Vec<Vec<u32>>) -> (r: (
    UniformStorage,
    Vec<SlotHandle<i32>>,
))
    requires
        names.len() == locations.len(),
        spec_creator_count(names@, locations@, num_programs as nat, names.len() as int) < NULL_HANDLE,
        names.len() <= u32::MAX,
    ensures
        r.0.wf(),
        r.0@.num_programs == num_programs,
        r.0@.slots.len() == spec_creator_count(names@, locations@, num_programs as nat, names.len() as int),
        r.0@.slots.len() <= names.len(),
        forall|c: int|
            0 <= c < names.len() && spec_creates_slot(names@, locations@, num_programs as nat, c)
                ==> #[trigger] r.1[c].spec_index() == spec_creator_count(
                names@,
                locations@,
                num_programs as nat,
                c,
            ),
        r.1.len() == names.len(),
        forall|s: int|
            0 <= s < r.0@.slots.len() ==> {
                &&& (#[trigger] r.0@.slots[s]).current.kind == UniformKind::I32
                &&& r.0@.dirty[s] == (r.0@.slots[s].current != spec_int_uniform(0))
                &&& exists|c: int|
                    0 <= c < names.len() && spec_creates_slot(names@, locations@, num_programs as nat, c)
                        && #[trigger] names[c]@ == r.0@.slots[s].name
                        && r.0@.slots[s].ids == spec_slot_ids(num_programs as nat, locations[c]@)
            },
        forall|i: int|
            0 <= i < names.len() ==> {
                let h = #[trigger] r.1[i].spec_index();
                &&& h == NULL_HANDLE <==> spec_unused_so_far(names@, locations@, num_programs as nat, i)
                &&& h != NULL_HANDLE ==> {
                    &&& h < r.0@.slots.len()
                    &&& r.0@.slots[h as int].name == names[i]@
                    &&& spec_last_of_name(names@, i) ==> r.0@.slots[h as int].current == spec_int_uniform(i as u32)
                }
            },
{
    let ghost np = num_programs as nat;
    let mut uniforms = UniformStorage::new(num_programs);
    let mut handles: Vec<SlotHandle<i32>> = Vec::new();
    let mut k: usize = 0;
    while k < names.len()
        invariant
            k <= names.len(),
            names.len() == locations.len(),
            spec_creator_count(names@, locations@, np, names.len() as int) < NULL_HANDLE,
            names.len() <= u32::MAX,
            np == num_programs,
            uniforms.wf(),
            uniforms@.num_programs == num_programs,
            uniforms@.slots.len() == spec_creator_count(names@, locations@, np, k as int),
            handles.len() == k,
            forall|c: int|
                0 <= c < k && spec_creates_slot(names@, locations@, np, c)
                    ==> #[trigger] handles[c].spec_index() == spec_creator_count(names@, locations@, np, c),
            forall|g: int|
                0 <= g < k && !spec_slot_is_null(np, #[trigger] locations[g]@) ==> spec_find(uniforms@, names[g]@) is Some,
            forall|s: int|
                0 <= s < uniforms@.slots.len() ==> {
                    let cur = (#[trigger] uniforms@.slots[s]).current;
                    &&& cur == spec_int_uniform(cur.scalars@[0])
                    &&& cur.scalars@[0] < k
                    &&& uniforms@.dirty[s] == (cur.scalars@[0] != 0)
                    &&& exists|c: int|
                        0 <= c < k && spec_creates_slot(names@, locations@, np, c)
                            && #[trigger] names[c]@ == uniforms@.slots[s].name
                            && uniforms@.slots[s].ids == spec_slot_ids(np, locations[c]@)
                },
            forall|i: int|
                0 <= i < k ==> {
                    let h = #[trigger] handles[i].spec_index();
                    &&& h == NULL_HANDLE <==> spec_unused_so_far(names@, locations@, np, i)
                    &&& h != NULL_HANDLE ==> {
                        &&& h < uniforms@.slots.len()
                        &&& uniforms@.slots[h as int].name == names[i]@
                        &&& (forall|m: int| i < m < k ==> #[trigger] names[m]@ != names[i]@)
                            ==> uniforms@.slots[h as int].current == spec_int_uniform(i as u32)
                    }
                },
        decreases names.len() - k,
    {
        let ghost v0 = uniforms@;
        proof {
            lemma_creator_count_monotone(names@, locations@, np, k as int, names.len() as int);
            lemma_creator_count_monotone(names@, locations@, np, k + 1, names.len() as int);
        }
        let result = uniforms.slot::<i32>(names[k].clone(), UniformKind::I32, locations[k].clone());
        let ghost v1 = uniforms@;
        let handle = match result {
            Ok(h) => h,
            Err(_) => {
                proof {
                    match spec_find(v0, names[k as int]@) {
                        Some(i) => assert(i < NULL_HANDLE),
                        None => assert(v0.slots.len() < NULL_HANDLE),
                    }
                }
                return (uniforms, handles);
            },
        };
        let ghost h = handle.spec_index();
        proof {
            match spec_find(v0, names[k as int]@) {
                Some(i) => {
                    assert(v1 == v0);
                    // the slot was created by an earlier unit of the same name
                    let c = choose|c: int|
                        0 <= c < k && spec_creates_slot(names@, locations@, np, c)
                            && #[trigger] names[c]@ == v0.slots[i as int].name
                            && v0.slots[i as int].ids == spec_slot_ids(np, locations[c]@);
                    assert(names[c]@ == names[k as int]@);
                    assert(!spec_unused_so_far(names@, locations@, np, k as int));
                    assert(!spec_creates_slot(names@, locations@, np, k as int));
                },
                None => {
                    assert forall|g: int|
                        0 <= g < k && #[trigger] names[g]@ == names[k as int]@ implies spec_slot_is_null(
                        np,
                        locations[g]@,
                    ) by {
                        if !spec_slot_is_null(np, locations[g]@) {
                            assert(spec_find(v0, names[g]@) is Some);
                        }
                    }
                    if !spec_slot_is_null(np, locations[k as int]@) {
                        assert forall|s: int| 0 <= s < v0.slots.len() implies #[trigger] v1.slots[s] == v0.slots[s] by {
                            assert(v1.slots.drop_last()[s] == v0.slots[s]);
                        }
                        assert(spec_creates_slot(names@, locations@, np, k as int));
                        assert(v1.slots[v0.slots.len() as int].current.scalars =~= spec_int_uniform(0).scalars);
                    } else {
                        assert(spec_unused_so_far(names@, locations@, np, k as int));
                        assert(!spec_creates_slot(names@, locations@, np, k as int));
                    }
                },
            }
        }
        let value = UniformValue {
            kind: UniformKind::I32,
            scalars: [k as u32, 0, 0, 0, 0, 0, 0, 0, 0, 0, 0, 0, 0, 0, 0, 0],
        };
        let same = |a: &UniformValue, b: &UniformValue| -> (e: bool)
            ensures
                e == (a.kind == b.kind && a.scalars@ == b.scalars@),
            { a.bits_equal(b) };
        uniforms.write_slot(handle, value, same);
        let ghost v2 = uniforms@;
        proof {
            assert(value == spec_int_uniform(k as u32));
            if h != NULL_HANDLE {
                assert(v1.slots[h as int].name == names[k as int]@);
                let cur = v1.slots[h as int].current;
                if v2 == v1 {
                    assert(same.ensures((&cur, &value), true));
                    assert(cur.scalars =~= value.scalars);
                    assert(cur == value);
                } else {
                    assert(same.ensures((&cur, &value), false));
                    if k == 0 {
                        assert(cur == spec_int_uniform(0));
                        assert(cur.scalars@ == value.scalars@);
                    }
                }
                assert(v2.slots[h as int].current == value);
            }
        }
        handles.push(handle);
        proof {
            assert forall|g: int|
                0 <= g < k + 1 && !spec_slot_is_null(np, #[trigger] locations[g]@) implies spec_find(
                v2,
                names[g]@,
            ) is Some by {
                if g < k {
                    let s = spec_find(v0, names[g]@)->0;
                    assert(v0.slots[s as int].name == names[g]@);
                    assert(v1.slots[s as int].name == names[g]@);
                    assert(v2.slots[s as int].name == names[g]@);
                } else {
                    assert(h != NULL_HANDLE);
                    assert(v2.slots[h as int].name == names[g]@);
                }
            }
            assert forall|s: int| 0 <= s < v2.slots.len() implies {
                let cur = (#[trigger] v2.slots[s]).current;
                &&& cur == spec_int_uniform(cur.scalars@[0])
                &&& cur.scalars@[0] < k + 1
                &&& v2.dirty[s] == (cur.scalars@[0] != 0)
                &&& exists|c: int|
                    0 <= c < k + 1 && spec_creates_slot(names@, locations@, np, c)
                        && #[trigger] names[c]@ == v2.slots[s].name
                        && v2.slots[s].ids == spec_slot_ids(np, locations[c]@)
            } by {
                if s < v0.slots.len() {
                    assert(v1.slots[s] == v0.slots[s]);
                    assert(v1.dirty[s] == v0.dirty[s]);
                    let c = choose|c: int|
                        0 <= c < k && spec_creates_slot(names@, locations@, np, c)
                            && #[trigger] names[c]@ == v0.slots[s].name
                            && v0.slots[s].ids == spec_slot_ids(np, locations[c]@);
                    assert(names[c]@ == v2.slots[s].name);
                } else {
                    assert(names[k as int]@ == v2.slots[s].name);
                }
                if s == h as int {
                    assert(v2.slots[s].current == spec_int_uniform(k as u32));
                }
            }
            assert forall|i: int| 0 <= i < k + 1 implies {
                let hi = #[trigger] handles[i].spec_index();
                &&& hi == NULL_HANDLE <==> spec_unused_so_far(names@, locations@, np, i)
                &&& hi != NULL_HANDLE ==> {
                    &&& hi < v2.slots.len()
                    &&& v2.slots[hi as int].name == names[i]@
                    &&& (forall|m: int| i < m < k + 1 ==> #[trigger] names[m]@ != names[i]@)
                        ==> v2.slots[hi as int].current == spec_int_uniform(i as u32)
                }
            } by {
                let hi = handles[i].spec_index();
                if i < k && hi != NULL_HANDLE {
                    assert(v1.slots[hi as int] == v0.slots[hi as int]);
                    if (forall|m: int| i < m < k + 1 ==> #[trigger] names[m]@ != names[i]@) {
                        assert(names[k as int]@ != names[i]@);
                        assert(hi != h);
                    }
                }
            }
        }
        k = k + 1;
    }
    proof {
        lemma_creator_count_monotone(names@, locations@, np, 0, names.len() as int);
        assert forall|s: int| 0 <= s < uniforms@.slots.len() implies uniforms@.dirty[s] == (
        #[trigger] uniforms@.slots[s].current != spec_int_uniform(0)) by {
            let cur = uniforms@.slots[s].current;
            if cur.scalars@[0] != 0 {
                assert(spec_int_uniform(0).scalars@[0] == 0);
            }
        }
    }
    (uniforms, handles)
}

/// Distinct input textures have distinct sampler uniform names, so no two of them share a
/// slot.
pub proof fn law_texture_uniform_names_distinct(i: nat, j: nat)
    requires
        i != j,
    ensures
        spec_texture_uniform_name(i) != spec_texture_uniform_name(j),
{
    if spec_texture_uniform_name(i) == spec_texture_uniform_name(j) {
        assert(spec_texture_uniform_name(i).skip(8) =~= spec_decimal(i));
        assert(spec_texture_uniform_name(j).skip(8) =~= spec_decimal(j));
        law_decimal_injective(i, j);
    }
}

} // verus!
